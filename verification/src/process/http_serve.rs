//! What the file server answers. Looking at the file system and talking
//! HTTP are a front end's; it says what it found at the path that was
//! asked for, and is told here what to answer.

use vstd::prelude::*;
use vstd::seq_lib::{to_multiset_build, to_multiset_insert};
use vstd::string::StringExecFns;
use vstd::utf8::encode_utf8;

verus! {

/// What a look at the file system found at the path that was asked for.
#[derive(Clone, Debug)]
pub enum Found {
    /// Nothing is there.
    Missing,
    /// A directory, with the names of what it holds, in any order.
    Directory { entries: Vec<String> },
    /// A file, with the text in it.
    File { content: String },
    /// A file that could not be read as text, with the reason.
    Unreadable { why: String },
}

/// The answer to a request.
#[derive(Clone, Debug)]
pub struct Reply {
    /// The HTTP status.
    pub status: u16,
    /// What is sent back.
    pub body: String,
    /// For a directory, the page to write into its `index.html`.
    pub index: Option<String>,
}

/// Whether `a` comes before `b` or is `b`, in the order of byte strings: by
/// the first byte in which they differ, and a prefix first.
pub open spec fn bytes_le(a: Seq<u8>, b: Seq<u8>) -> bool
    decreases a.len(),
{
    if a.len() == 0 {
        true
    } else if b.len() == 0 {
        false
    } else if a.first() != b.first() {
        a.first() < b.first()
    } else {
        bytes_le(a.drop_first(), b.drop_first())
    }
}

/// Whether `a` comes before `b` or is `b`, in the order of strings, which
/// is that of their UTF-8 bytes.
pub open spec fn text_le(a: Seq<char>, b: Seq<char>) -> bool {
    bytes_le(encode_utf8(a), encode_utf8(b))
}

/// Whether the names stand in ascending order.
pub open spec fn ascending(names: Seq<Seq<char>>) -> bool {
    forall|i: int, j: int| 0 <= i <= j < names.len() ==> text_le(names[i], names[j])
}

/// The names as character sequences.
pub open spec fn names_view(names: Seq<String>) -> Seq<Seq<char>> {
    Seq::new(names.len(), |i: int| names[i]@)
}

/// Whether `sorted` holds the names of `names`, each as often, in
/// ascending order.
pub open spec fn is_listing(sorted: Seq<Seq<char>>, names: Seq<Seq<char>>) -> bool {
    &&& sorted.to_multiset() == names.to_multiset()
    &&& ascending(sorted)
}

/// The list item that links to a file.
pub open spec fn index_item(name: Seq<char>) -> Seq<char> {
    "<li><a href=\""@ + name + "\">"@ + name + "</a></li>"@
}

/// The list items for the names, in their order.
pub open spec fn index_items(names: Seq<Seq<char>>) -> Seq<char>
    decreases names.len(),
{
    if names.len() == 0 {
        Seq::empty()
    } else {
        index_items(names.drop_last()) + index_item(names.last())
    }
}

/// The page that lists the names, in their order.
pub open spec fn index_page(names: Seq<Seq<char>>) -> Seq<char> {
    "<html><body><ul>"@ + index_items(names) + "</ul></body></html>"@
}

/// Every byte string comes before itself or is itself.
proof fn lemma_bytes_le_reflexive(a: Seq<u8>)
    ensures
        bytes_le(a, a),
    decreases a.len(),
{
    if a.len() > 0 {
        lemma_bytes_le_reflexive(a.drop_first());
    }
}

/// Of two byte strings one comes before the other or is the other.
proof fn lemma_bytes_le_total(a: Seq<u8>, b: Seq<u8>)
    ensures
        bytes_le(a, b) || bytes_le(b, a),
    decreases a.len(),
{
    if a.len() > 0 && b.len() > 0 && a.first() == b.first() {
        lemma_bytes_le_total(a.drop_first(), b.drop_first());
    }
}

/// What comes before something that comes before a third comes before the
/// third.
proof fn lemma_bytes_le_transitive(a: Seq<u8>, b: Seq<u8>, c: Seq<u8>)
    requires
        bytes_le(a, b),
        bytes_le(b, c),
    ensures
        bytes_le(a, c),
    decreases a.len(),
{
    if a.len() > 0 && b.len() > 0 && c.len() > 0 && a.first() == b.first() && b.first()
        == c.first() {
        lemma_bytes_le_transitive(a.drop_first(), b.drop_first(), c.drop_first());
    }
}

/// Whether `a` comes before `b` or is `b`, in the order of byte strings.
pub fn bytes_in_order(a: &[u8], b: &[u8]) -> (le: bool)
    ensures
        le == bytes_le(a@, b@),
{
    let mut i: usize = 0;
    proof {
        assert(a@.skip(0) =~= a@);
        assert(b@.skip(0) =~= b@);
    }
    while i < a.len() && i < b.len()
        invariant
            i <= a@.len(),
            i <= b@.len(),
            bytes_le(a@, b@) == bytes_le(a@.skip(i as int), b@.skip(i as int)),
        decreases a@.len() - i,
    {
        proof {
            assert(a@.skip(i as int).first() == a@[i as int]);
            assert(b@.skip(i as int).first() == b@[i as int]);
            assert(a@.skip(i as int).drop_first() =~= a@.skip(i + 1));
            assert(b@.skip(i as int).drop_first() =~= b@.skip(i + 1));
        }
        if a[i] != b[i] {
            return a[i] < b[i];
        }
        i += 1;
    }
    i == a.len()
}

/// Whether `a` comes before `b` or is `b`, in the order of strings.
pub fn names_in_order(a: &str, b: &str) -> (le: bool)
    ensures
        le == text_le(a@, b@),
{
    bytes_in_order(a.as_bytes(), b.as_bytes())
}

/// Names in ascending order stay so when a name is put in behind all that
/// come before it and before the first that does not.
proof fn lemma_insert_keeps_order(sorted: Seq<Seq<char>>, at: int, name: Seq<char>)
    requires
        ascending(sorted),
        0 <= at <= sorted.len(),
        forall|k: int| 0 <= k < at ==> text_le(#[trigger] sorted[k], name),
        at < sorted.len() ==> !text_le(sorted[at], name),
    ensures
        ascending(sorted.insert(at, name)),
{
    let longer = sorted.insert(at, name);
    assert forall|i: int, j: int| 0 <= i <= j < longer.len() implies text_le(
        longer[i],
        longer[j],
    ) by {
        if i == at && j == at {
            lemma_bytes_le_reflexive(encode_utf8(name));
        } else if j == at {
            assert(longer[i] == sorted[i]);
        } else if i == at {
            assert(longer[j] == sorted[j - 1]);
            lemma_bytes_le_total(encode_utf8(sorted[at]), encode_utf8(name));
            assert(text_le(sorted[at], sorted[j - 1]));
            lemma_bytes_le_transitive(
                encode_utf8(name),
                encode_utf8(sorted[at]),
                encode_utf8(sorted[j - 1]),
            );
        } else {
            let from = if i < at {
                i
            } else {
                i - 1
            };
            let to = if j < at {
                j
            } else {
                j - 1
            };
            assert(longer[i] == sorted[from]);
            assert(longer[j] == sorted[to]);
        }
    }
}

/// The names in ascending order.
pub fn sorted_names(names: Vec<String>) -> (sorted: Vec<String>)
    ensures
        is_listing(names_view(sorted@), names_view(names@)),
{
    let mut sorted: Vec<String> = Vec::new();
    let ghost all = names_view(names@);
    let mut i: usize = 0;
    proof {
        assert(names_view(sorted@) =~= all.take(0));
    }
    while i < names.len()
        invariant
            i <= names@.len(),
            all == names_view(names@),
            names_view(sorted@).to_multiset() == all.take(i as int).to_multiset(),
            ascending(names_view(sorted@)),
        decreases names@.len() - i,
    {
        let name = names[i].clone();
        let mut at: usize = 0;
        while at < sorted.len() && names_in_order(sorted[at].as_str(), name.as_str())
            invariant
                at <= sorted@.len(),
                forall|k: int| 0 <= k < at ==> text_le(#[trigger] sorted@[k]@, name@),
            decreases sorted@.len() - at,
        {
            at += 1;
        }
        let ghost before = names_view(sorted@);
        proof {
            assert forall|k: int| 0 <= k < at implies text_le(#[trigger] before[k], name@) by {
                assert(text_le(sorted@[k]@, name@));
            }
            lemma_insert_keeps_order(before, at as int, name@);
            to_multiset_insert(before, at as int, name@);
            to_multiset_build(all.take(i as int), name@);
            assert(all.take(i + 1) =~= all.take(i as int).push(name@));
        }
        sorted.insert(at, name);
        proof {
            assert(names_view(sorted@) =~= before.insert(at as int, name@));
        }
        i += 1;
    }
    proof {
        assert(all.take(i as int) =~= all);
    }
    sorted
}

/// The page that lists the names in the order given, each as a link to
/// itself.
pub fn render_index(names: &Vec<String>) -> (page: String)
    ensures
        page@ == index_page(names_view(names@)),
{
    let mut page = String::from_str("<html><body><ul>");
    let ghost all = names_view(names@);
    let mut i: usize = 0;
    while i < names.len()
        invariant
            i <= names@.len(),
            all == names_view(names@),
            page@ == "<html><body><ul>"@ + index_items(all.take(i as int)),
        decreases names@.len() - i,
    {
        let name = names[i].as_str();
        let ghost before = page@;
        page.append("<li><a href=\"");
        page.append(name);
        page.append("\">");
        page.append(name);
        page.append("</a></li>");
        i += 1;
        proof {
            let upto = all.take(i as int);
            assert(upto.drop_last() =~= all.take(i - 1));
            assert(upto.last() == name@);
            assert(page@ =~= before + index_item(name@));
            assert(page@ =~= "<html><body><ul>"@ + index_items(upto));
        }
    }
    proof {
        assert(all.take(i as int) =~= all);
    }
    page.append("</ul></body></html>");
    page
}

/// What is said of a path at which nothing is.
pub open spec fn not_found(path: Seq<char>) -> Seq<char> {
    "File "@ + path + " not found!"@
}

/// The answer for the path that was asked for, given what was found there:
/// 404 where nothing is; for a directory 200, with the page that lists its
/// entries in ascending order to be written as its index; for a file 200
/// and its text; 500 and the reason for a file that cannot be read.
pub fn file_handler(path: &str, found: Found) -> (reply: Reply)
    ensures
        match found {
            Found::Missing => {
                &&& reply.status == 404
                &&& reply.body@ == not_found(path@)
                &&& reply.index is None
            },
            Found::Directory { entries } => {
                &&& reply.status == 200
                &&& reply.body@ == "None"@
                &&& reply.index matches Some(page) && exists|sorted: Seq<Seq<char>>|
                    #[trigger] is_listing(sorted, names_view(entries@)) && page@ == index_page(
                        sorted,
                    )
            },
            Found::File { content } => {
                &&& reply.status == 200
                &&& reply.body@ == content@
                &&& reply.index is None
            },
            Found::Unreadable { why } => {
                &&& reply.status == 500
                &&& reply.body@ == why@
                &&& reply.index is None
            },
        },
{
    match found {
        Found::Missing => {
            let mut body = String::from_str("File ");
            body.append(path);
            body.append(" not found!");
            proof {
                assert(body@ =~= not_found(path@));
            }
            Reply { status: 404, body, index: None }
        },
        Found::Directory { entries } => {
            let sorted = sorted_names(entries);
            let page = render_index(&sorted);
            Reply { status: 200, body: String::from_str("None"), index: Some(page) }
        },
        Found::File { content } => Reply { status: 200, body: content, index: None },
        Found::Unreadable { why } => Reply { status: 500, body: why, index: None },
    }
}

} // verus!
