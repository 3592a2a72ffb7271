//! Vocabulary shared by the dock panels: where a panel docks, its icon, its actions,
//! and the rows and menu entries it shows.

use vstd::prelude::*;

use crate::text::{
    decimal, decimal_value, is_digit, lemma_decimal_digits, lemma_decimal_injective, lemma_decimal_len,
    lemma_decimal_value, lemma_digit_not_hyphen, push_decimal,
};

verus! {

/// A side of the workspace where a panel can dock.
#[derive(Clone, Copy, Debug, PartialEq, Eq, Structural)]
pub enum DockPosition {
    Left,
    Bottom,
    Right,
}

/// The icon a panel shows in the dock's button bar.
#[derive(Clone, Copy, Debug, PartialEq, Eq, Structural)]
pub enum PanelIcon {
    FileTree,
    DatabaseZap,
}

/// The actions the peer-to-peer panels register.
#[derive(Clone, Copy, Debug, PartialEq, Eq, Structural)]
pub enum PanelAction {
    ToggleFocus,
    CreateDocument,
    CreateIdentity,
}

/// One row of a panel list: the element id it is rendered under and the text it shows.
pub struct ListEntry {
    pub id: String,
    pub label: String,
}

/// One entry of a context menu: its label and the action it dispatches.
pub struct MenuEntry {
    pub label: String,
    pub action: PanelAction,
}

/// The element id of the row at `index` that shows `label` in the list `prefix` names:
/// `"{prefix}{index}-{label}"`.
pub open spec fn element_id(prefix: Seq<char>, index: nat, label: Seq<char>) -> Seq<char> {
    prefix + decimal(index) + seq!['-'] + label
}

/// A word followed by a space and a number, such as `Document 3`.
pub open spec fn numbered_name(word: Seq<char>, n: nat) -> Seq<char> {
    word + seq![' '] + decimal(n)
}

/// Different counts give different names: a new document or identity named after the
/// count never takes the name of one made at another count.
pub proof fn lemma_numbered_names_differ(word: Seq<char>, a: nat, b: nat)
    requires
        a != b,
    ensures
        numbered_name(word, a) != numbered_name(word, b),
{
    let x = numbered_name(word, a);
    let y = numbered_name(word, b);
    if x == y {
        let k = word.len() + 1;
        assert(x.subrange(k as int, x.len() as int) =~= decimal(a));
        assert(y.subrange(k as int, y.len() as int) =~= decimal(b));
        lemma_decimal_injective(a, b);
    }
}

/// A name made from a count is the word, a space and then digits only, whose value read as
/// a decimal numeral is the count itself.
pub proof fn lemma_numbered_name_reads_back(word: Seq<char>, n: nat)
    ensures
        numbered_name(word, n).len() > word.len() + 1,
        numbered_name(word, n).subrange(0, word.len() as int) == word,
        numbered_name(word, n)[word.len() as int] == ' ',
        forall|k: int| word.len() + 1 <= k < numbered_name(word, n).len()
            ==> is_digit(#[trigger] numbered_name(word, n)[k]),
        decimal_value(numbered_name(word, n).subrange((word.len() + 1) as int, numbered_name(word, n).len() as int)) == n,
{
    let x = numbered_name(word, n);
    let k = word.len() + 1;
    lemma_decimal_len(n);
    lemma_decimal_digits(n);
    lemma_decimal_value(n);
    assert(x.subrange(0, word.len() as int) =~= word);
    assert(x.subrange(k as int, x.len() as int) =~= decimal(n));
    assert forall|i: int| k <= i < x.len() implies is_digit(#[trigger] x[i]) by {
        assert(x[i] == decimal(n)[i - k]);
    }
}

proof fn lemma_shorter_numeral_ids_differ(
    prefix: Seq<char>,
    i: nat,
    j: nat,
    a: Seq<char>,
    b: Seq<char>,
)
    requires
        decimal(i).len() < decimal(j).len(),
    ensures
        element_id(prefix, i, a) != element_id(prefix, j, b),
{
    let x = element_id(prefix, i, a);
    let y = element_id(prefix, j, b);
    let k = (prefix.len() + decimal(i).len()) as int;
    assert(x[k] == '-');
    lemma_decimal_digits(j);
    assert(y[k] == decimal(j)[decimal(i).len() as int]);
    lemma_digit_not_hyphen(decimal(j)[decimal(i).len() as int]);
}

/// Rows at different positions of one list never share an element id, whatever they show.
pub proof fn lemma_element_ids_distinct(
    prefix: Seq<char>,
    i: nat,
    j: nat,
    a: Seq<char>,
    b: Seq<char>,
)
    requires
        i != j,
    ensures
        element_id(prefix, i, a) != element_id(prefix, j, b),
{
    let li = decimal(i).len();
    let lj = decimal(j).len();
    if li < lj {
        lemma_shorter_numeral_ids_differ(prefix, i, j, a, b);
    } else if lj < li {
        lemma_shorter_numeral_ids_differ(prefix, j, i, b, a);
    } else {
        let x = element_id(prefix, i, a);
        let y = element_id(prefix, j, b);
        let p = prefix.len() as int;
        if x == y {
            assert(x.subrange(p, p + li) =~= decimal(i));
            assert(y.subrange(p, p + lj) =~= decimal(j));
            lemma_decimal_injective(i, j);
        }
    }
}

/// The element id `"{prefix}{index}-{label}"`.
pub fn element_id_string(prefix: &str, index: usize, label: &str) -> (id: String)
    ensures
        id@ == element_id(prefix@, index as nat, label@),
{
    let mut id = String::from_str(prefix);
    push_decimal(&mut id, index);
    proof { reveal_strlit("-"); }
    id.append("-");
    id.append(label);
    id
}

/// The name `"{word} {n}"`.
pub fn numbered_name_string(word: &str, n: usize) -> (name: String)
    ensures
        name@ == numbered_name(word@, n as nat),
{
    let mut name = String::from_str(word);
    proof { reveal_strlit(" "); }
    name.append(" ");
    push_decimal(&mut name, n);
    name
}

/// The views of a list of strings.
pub open spec fn string_views(v: Seq<String>) -> Seq<Seq<char>> {
    v.map_values(|s: String| s@)
}

/// Whether `entries` lists `labels` in order, each row under the id that `prefix` and its
/// position give.
pub open spec fn lists_with_ids(entries: Seq<ListEntry>, prefix: Seq<char>, labels: Seq<Seq<char>>) -> bool {
    &&& entries.len() == labels.len()
    &&& forall|i: int| 0 <= i < labels.len() ==> {
        &&& (#[trigger] entries[i]).label@ == labels[i]
        &&& entries[i].id@ == element_id(prefix, i as nat, labels[i])
    }
}

/// The rows of a list: one per label, in order, under ids that are pairwise distinct.
pub fn list_entries(prefix: &str, labels: &Vec<String>) -> (entries: Vec<ListEntry>)
    ensures
        lists_with_ids(entries@, prefix@, string_views(labels@)),
        forall|i: int, j: int|
            0 <= i < entries.len() && 0 <= j < entries.len() && i != j
                ==> (#[trigger] entries@[i]).id@ != (#[trigger] entries@[j]).id@,
{
    let mut entries: Vec<ListEntry> = Vec::new();
    let n = labels.len();
    for i in 0..n
        invariant
            n == labels.len(),
            entries.len() == i,
            forall|k: int| 0 <= k < i ==> {
                &&& (#[trigger] entries@[k]).label@ == labels@[k]@
                &&& entries@[k].id@ == element_id(prefix@, k as nat, labels@[k]@)
            },
    {
        let label = labels[i].clone();
        let id = element_id_string(prefix, i, labels[i].as_str());
        entries.push(ListEntry { id, label });
    }
    proof {
        assert forall|i: int, j: int|
            0 <= i < entries.len() && 0 <= j < entries.len() && i != j
                implies (#[trigger] entries@[i]).id@ != (#[trigger] entries@[j]).id@ by {
            lemma_element_ids_distinct(prefix@, i as nat, j as nat, labels@[i]@, labels@[j]@);
        }
    }
    entries
}

} // verus!
