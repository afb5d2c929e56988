use rcli::process::gen_pass::{LOWER, NUMBERS, SYMBOLS, UPPER};
use rcli::{password_bytes, process_gen_pass, GenpassOpt, RandomSource, SystemRandom};

/// A source that always takes the last item and turns the order round.
struct LastAndReversed;

impl RandomSource for LastAndReversed {
    fn pick(&mut self, set: &[u8]) -> Option<u8> {
        set.last().copied()
    }

    fn shuffle(&mut self, items: &mut Vec<u8>) {
        items.reverse()
    }

    fn secret(&mut self) -> [u8; 32] {
        [0u8; 32]
    }
}

fn has_one_of(password: &str, class: &str) -> bool {
    password.chars().any(|c| class.contains(c))
}

#[test]
fn classes_leave_out_what_is_easily_mistaken() {
    assert_eq!(UPPER, "ABCDEFGHJKLMNPQRSTUVWXYZ");
    assert_eq!(LOWER, "abcdefghijkmnopqrstuvwxyz");
    assert_eq!(NUMBERS, "123456789");
    assert_eq!(SYMBOLS, "!@#$%^&*?");
    assert!(!UPPER.contains('I') && !UPPER.contains('O'));
    assert!(!LOWER.contains('l'));
    assert!(!NUMBERS.contains('0'));
}

#[test]
fn password_has_the_length_and_one_of_each_class() {
    for length in [4u8, 5, 16, 32, 255] {
        for _ in 0..20 {
            let password = process_gen_pass(length, true, true, true, true);
            assert_eq!(password.chars().count(), length as usize);
            assert_eq!(password.len(), length as usize);
            assert!(has_one_of(&password, UPPER));
            assert!(has_one_of(&password, LOWER));
            assert!(has_one_of(&password, NUMBERS));
            assert!(has_one_of(&password, SYMBOLS));
            let all = format!("{}{}{}{}", UPPER, LOWER, NUMBERS, SYMBOLS);
            assert!(password.chars().all(|c| all.contains(c)));
        }
    }
}

#[test]
fn password_holds_only_the_classes_asked_for() {
    for _ in 0..20 {
        let password = process_gen_pass(12, false, true, false, false);
        assert_eq!(password.len(), 12);
        assert!(password.chars().all(|c| LOWER.contains(c)));
        let password = process_gen_pass(12, true, false, true, false);
        assert!(password.chars().all(|c| UPPER.contains(c) || NUMBERS.contains(c)));
        assert!(has_one_of(&password, UPPER));
        assert!(has_one_of(&password, NUMBERS));
        let password = process_gen_pass(1, false, false, false, true);
        assert_eq!(password.len(), 1);
        assert!(SYMBOLS.contains(&password));
    }
}

#[test]
fn password_of_no_characters_is_empty() {
    assert_eq!(process_gen_pass(0, false, false, false, false), "");
    assert_eq!(password_bytes(&mut SystemRandom, 0, false, false, false, false), Vec::<u8>::new());
}

#[test]
fn password_bytes_are_its_characters() {
    let bytes = password_bytes(&mut SystemRandom, 24, true, true, true, true);
    assert_eq!(bytes.len(), 24);
    assert!(bytes.iter().all(|b| *b < 128));
    let text = String::from_utf8(bytes).unwrap();
    assert!(has_one_of(&text, UPPER));
    assert!(has_one_of(&text, SYMBOLS));
}

#[test]
fn passwords_differ() {
    let first = process_gen_pass(32, true, true, true, true);
    let second = process_gen_pass(32, true, true, true, true);
    assert_ne!(first, second);
}

#[test]
fn default_arguments_ask_for_sixteen_of_all_classes() {
    let opts = GenpassOpt::default();
    assert_eq!(
        opts,
        GenpassOpt { length: 16, uppercase: true, lowercase: true, numbers: true, symbols: true }
    );
    assert!(opts.is_satisfiable());
    assert_eq!(opts.generate().unwrap().len(), 16);
}

#[test]
fn arguments_that_cannot_be_met_give_nothing() {
    let none = GenpassOpt { length: 8, uppercase: false, lowercase: false, numbers: false, symbols: false };
    assert!(!none.is_satisfiable());
    assert_eq!(none.generate(), None);
    let short = GenpassOpt { length: 3, uppercase: true, lowercase: true, numbers: true, symbols: true };
    assert!(!short.is_satisfiable());
    assert_eq!(short.generate(), None);
    let exact = GenpassOpt { length: 4, uppercase: true, lowercase: true, numbers: true, symbols: true };
    assert!(exact.is_satisfiable());
    assert_eq!(exact.generate().unwrap().len(), 4);
    let empty = GenpassOpt { length: 0, uppercase: false, lowercase: false, numbers: false, symbols: false };
    assert!(empty.is_satisfiable());
    assert_eq!(empty.generate(), Some(String::new()));
    let room = GenpassOpt { length: 0, uppercase: true, lowercase: false, numbers: false, symbols: false };
    assert!(!room.is_satisfiable());
}

#[test]
fn password_is_one_of_each_class_then_of_all_then_mixed() {
    let mut source = LastAndReversed;
    assert_eq!(password_bytes(&mut source, 8, true, true, true, true), b"?????9zZ".to_vec());
    assert_eq!(password_bytes(&mut source, 4, true, true, true, true), b"?9zZ".to_vec());
    assert_eq!(password_bytes(&mut source, 5, true, false, true, false), b"9999Z".to_vec());
    assert_eq!(password_bytes(&mut source, 3, false, true, false, false), b"zzz".to_vec());
}
