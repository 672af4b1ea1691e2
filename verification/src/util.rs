//! String escaping for the ninja syntax, and small shared utilities.

use vstd::prelude::*;
use crate::arg::ToArg;
use vstd::string::StrSliceExecFns;

verus! {

/// Relies on alloc's `String::push`: appends the given character to the
/// end of the string.
pub assume_specification[ String::push ](s: &mut String, ch: char)
    ensures
        final(s)@ == old(s)@.push(ch),
;

/// Whether `c` receives an escape marker under the given policy.
///
/// The marker character `$` and the newline are always escaped; the space
/// and the colon only under the policies that ask for them.
pub open spec fn escapes_char(c: char, escape_space: bool, escape_colon: bool) -> bool {
    c == '$' || c == '\n' || (c == ' ' && escape_space) || (c == ':' && escape_colon)
}

/// The escaped form of a single character: the character itself, with a
/// `$` marker in front when the policy escapes it.
pub open spec fn escape_char(c: char, escape_space: bool, escape_colon: bool) -> Seq<char> {
    if escapes_char(c, escape_space, escape_colon) {
        seq!['$', c]
    } else {
        seq![c]
    }
}

/// The escaped form of a whole string: each character replaced by its
/// escaped form, in order.
pub open spec fn escape_seq(s: Seq<char>, escape_space: bool, escape_colon: bool) -> Seq<char>
    decreases s.len(),
{
    if s.len() == 0 {
        Seq::empty()
    } else {
        escape_char(s[0], escape_space, escape_colon) + escape_seq(
            s.drop_first(),
            escape_space,
            escape_colon,
        )
    }
}

/// Escaping a string extended by one character appends that character's
/// escaped form.
pub proof fn lemma_escape_seq_push(s: Seq<char>, c: char, escape_space: bool, escape_colon: bool)
    ensures
        escape_seq(s.push(c), escape_space, escape_colon) == escape_seq(
            s,
            escape_space,
            escape_colon,
        ) + escape_char(c, escape_space, escape_colon),
    decreases s.len(),
{
    if s.len() == 0 {
        let t = s.push(c);
        assert(t.len() == 1);
        assert(t[0] == c);
        assert(t.drop_first() =~= Seq::<char>::empty());
        assert(escape_seq(t, escape_space, escape_colon) == escape_char(
            c,
            escape_space,
            escape_colon,
        ) + escape_seq(Seq::<char>::empty(), escape_space, escape_colon));
        assert(escape_char(c, escape_space, escape_colon) + Seq::<char>::empty() =~= escape_char(
            c,
            escape_space,
            escape_colon,
        ));
        assert(escape_seq(s, escape_space, escape_colon) == Seq::<char>::empty());
    } else {
        assert(s.push(c).drop_first() =~= s.drop_first().push(c));
        assert(s.push(c)[0] == s[0]);
        lemma_escape_seq_push(s.drop_first(), c, escape_space, escape_colon);
        assert(escape_seq(s.push(c), escape_space, escape_colon) =~= escape_seq(
            s,
            escape_space,
            escape_colon,
        ) + escape_char(c, escape_space, escape_colon));
    }
}

/// Escaping leaves a string unchanged when none of its characters is
/// escaped under the chosen policy.
pub proof fn lemma_escape_safe_identity(s: Seq<char>, escape_space: bool, escape_colon: bool)
    requires
        forall|i: int| 0 <= i < s.len() ==> !escapes_char(s[i], escape_space, escape_colon),
    ensures
        escape_seq(s, escape_space, escape_colon) == s,
    decreases s.len(),
{
    if s.len() == 0 {
        assert(escape_seq(s, escape_space, escape_colon) =~= s);
    } else {
        lemma_escape_safe_identity(s.drop_first(), escape_space, escape_colon);
        assert(seq![s[0]] + s.drop_first() =~= s);
    }
}

/// The inverse reading of an escaped string: every `$` marker that stands
/// immediately before a character of the escaped class is removed, and
/// everything else is kept.
pub open spec fn unescape_seq(s: Seq<char>, escape_space: bool, escape_colon: bool) -> Seq<char>
    decreases s.len(),
{
    if s.len() == 0 {
        Seq::empty()
    } else if s[0] == '$' && s.len() >= 2 && escapes_char(s[1], escape_space, escape_colon) {
        seq![s[1]] + unescape_seq(s.skip(2), escape_space, escape_colon)
    } else {
        seq![s[0]] + unescape_seq(s.drop_first(), escape_space, escape_colon)
    }
}

/// Round trip: removing every marker that escaping inserted reconstructs
/// the original string, for every input and every policy.
pub proof fn lemma_escape_round_trip(s: Seq<char>, escape_space: bool, escape_colon: bool)
    ensures
        unescape_seq(escape_seq(s, escape_space, escape_colon), escape_space, escape_colon) == s,
    decreases s.len(),
{
    if s.len() == 0 {
        assert(unescape_seq(escape_seq(s, escape_space, escape_colon), escape_space, escape_colon)
            =~= s);
    } else {
        let rest = escape_seq(s.drop_first(), escape_space, escape_colon);
        lemma_escape_round_trip(s.drop_first(), escape_space, escape_colon);
        if escapes_char(s[0], escape_space, escape_colon) {
            let t = seq!['$', s[0]] + rest;
            assert(escape_seq(s, escape_space, escape_colon) == t);
            assert(t[0] == '$' && t.len() >= 2 && t[1] == s[0]);
            assert(t.skip(2) =~= rest);
            assert(seq![s[0]] + s.drop_first() =~= s);
        } else {
            let t = seq![s[0]] + rest;
            assert(escape_seq(s, escape_space, escape_colon) == t);
            assert(t[0] == s[0] && s[0] != '$');
            assert(t.drop_first() =~= rest);
            assert(seq![s[0]] + s.drop_first() =~= s);
        }
    }
}

/// Policy monotonicity: every character escaped by the plain policy is
/// escaped by the path policy, and every character escaped by the path
/// policy is escaped by the build policy.
pub proof fn lemma_escape_policy_monotonic(c: char)
    ensures
        escapes_char(c, false, false) ==> escapes_char(c, true, false),
        escapes_char(c, true, false) ==> escapes_char(c, true, true),
{
}

/// Escape a string with an explicit policy choice: a `$` marker is placed
/// before every `$` and newline, before every space if `escape_space`,
/// and before every colon if `escape_colon`.  All other characters pass
/// through unchanged.
pub fn escape_impl(s: &str, escape_space: bool, escape_colon: bool) -> (r: String)
    ensures
        r@ == escape_seq(s@, escape_space, escape_colon),
{
    let len = s.unicode_len();
    let mut out = String::new();
    let mut i: usize = 0;
    while i < len
        invariant
            i <= len,
            len == s@.len(),
            out@ == escape_seq(s@.take(i as int), escape_space, escape_colon),
        decreases len - i,
    {
        let c = s.get_char(i);
        proof {
            lemma_escape_seq_push(s@.take(i as int), c, escape_space, escape_colon);
            assert(s@.take(i + 1 as int) =~= s@.take(i as int).push(s@[i as int]));
        }
        if c == '$' || c == '\n' || (c == ' ' && escape_space) || (c == ':' && escape_colon) {
            out.push('$');
        }
        out.push(c);
        i = i + 1;
    }
    proof {
        assert(s@.take(len as int) =~= s@);
    }
    out
}

/// Escape a string for ninja, without escaping spaces or colons.
///
/// This is the policy for free text such as commands and variable values.
pub fn escape(s: &str) -> (r: String)
    ensures
        r@ == escape_seq(s@, false, false),
{
    escape_impl(s, false, false)
}

/// Escape a string for ninja, escaping spaces but not colons.
///
/// This is the policy for lists of paths, where the space separates items.
pub fn escape_path(s: &str) -> (r: String)
    ensures
        r@ == escape_seq(s@, true, false),
{
    escape_impl(s, true, false)
}

/// Escape a string for ninja, escaping both spaces and colons.
///
/// This is the policy for build statement outputs, where the colon is a
/// syntactic delimiter.
pub fn escape_build(s: &str) -> (r: String)
    ensures
        r@ == escape_seq(s@, true, true),
{
    escape_impl(s, true, true)
}

/// A value rendered with a two-space indent in front, as the lines of an
/// attached-variable block are.
pub struct Indented<T: ToArg>(pub T);

impl<T: ToArg> Indented<T> {
    /// Render the wrapped value behind the two-space indent.
    pub fn render(&self) -> (r: String)
        ensures
            r@ == "  "@ + self.0.arg_model(),
    {
        let mut out = String::from_str("  ");
        let body = self.0.to_arg();
        out.append(body.as_str());
        out
    }
}

/// A list that only grows: elements are appended and never removed or
/// reordered.  It backs the statement and variable lists of the document.
pub struct AddOnlyVec<T> {
    elements: Vec<T>,
}

impl<T> View for AddOnlyVec<T> {
    type V = Seq<T>;

    closed spec fn view(&self) -> Seq<T> {
        self.elements@
    }
}

impl<T> AddOnlyVec<T> {
    /// Create an empty list.
    pub fn new() -> (r: Self)
        ensures
            r@ == Seq::<T>::empty(),
    {
        AddOnlyVec { elements: Vec::new() }
    }

    /// Append one element to the list.
    pub fn add(&mut self, element: T)
        ensures
            final(self)@ == old(self)@.push(element),
    {
        self.elements.push(element);
    }

    /// Append every element of `other` to the list, in order.
    pub fn extend(&mut self, other: Vec<T>)
        ensures
            final(self)@ == old(self)@ + other@,
    {
        let mut other = other;
        self.elements.append(&mut other);
    }

    /// Read access to the elements.
    pub fn inner(&self) -> (r: &Vec<T>)
        ensures
            r@ == self@,
    {
        &self.elements
    }

    /// Mutable access to one element, so that the lists attached to it
    /// can grow; the list itself keeps its length and order.
    pub fn entry_mut(&mut self, i: usize) -> (element: &mut T)
        requires
            i < old(self)@.len(),
        ensures
            *element == old(self)@[i as int],
            final(self)@ == old(self)@.update(i as int, *final(element)),
            *final(element) == final(self)@[i as int],
    {
        &mut self.elements[i]
    }
}

} // verus!
