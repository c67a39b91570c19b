//! Parsing of command-line references of the form `project-path` or
//! `project-path@branch`.
//!
//! A reference is split at the first `@`: the prefix is the project path, the
//! suffix the branch name. Without an `@` the whole input names a project.

use vstd::prelude::*;

verus! {

/// A project selector: either a bare project path, or a project path plus a
/// branch name.
#[derive(Clone, Debug)]
pub enum GitlabRef {
    Repo(String),
    Branch(String, String),
}

/// Mathematical shape of a [`GitlabRef`]: the same two cases over character
/// sequences.
pub enum RefShape {
    Repo(Seq<char>),
    Branch(Seq<char>, Seq<char>),
}

impl View for GitlabRef {
    type V = RefShape;

    open spec fn view(&self) -> RefShape {
        match self {
            GitlabRef::Repo(p) => RefShape::Repo(p@),
            GitlabRef::Branch(p, b) => RefShape::Branch(p@, b@),
        }
    }
}

/// Index of the first `@` in `s`, or `s.len()` if there is none.
pub open spec fn first_at(s: Seq<char>) -> int
    decreases s.len(),
{
    if s.len() == 0 {
        0
    } else if s[0] == '@' {
        0
    } else {
        1 + first_at(s.drop_first())
    }
}

/// What parsing a reference yields: split at the first `@`, or the whole
/// input as a project path if there is none.
pub open spec fn spec_parse_ref(s: Seq<char>) -> RefShape {
    let i = first_at(s);
    if i < s.len() {
        RefShape::Branch(s.take(i), s.skip(i + 1))
    } else {
        RefShape::Repo(s)
    }
}

/// `first_at` points at the first `@`: it is in bounds (or equal to the
/// length), everything before it differs from `@`, and if it is in bounds it
/// is an `@`.
pub proof fn lemma_first_at(s: Seq<char>)
    ensures
        0 <= first_at(s) <= s.len(),
        forall|j: int| 0 <= j < first_at(s) ==> s[j] != '@',
        first_at(s) < s.len() ==> s[first_at(s)] == '@',
    decreases s.len(),
{
    if s.len() != 0 && s[0] != '@' {
        lemma_first_at(s.drop_first());
        assert forall|j: int| 0 <= j < first_at(s) implies s[j] != '@' by {
            if j > 0 {
                assert(s.drop_first()[j - 1] == s[j]);
            }
        }
    }
}

/// If no position before `i` holds an `@` and `s[i]` is one, then `i` is the
/// first `@`.
proof fn lemma_first_at_is(s: Seq<char>, i: int)
    requires
        0 <= i < s.len(),
        forall|j: int| 0 <= j < i ==> s[j] != '@',
        s[i] == '@',
    ensures
        first_at(s) == i,
    decreases s.len(),
{
    if i > 0 {
        assert forall|j: int| 0 <= j < i - 1 implies s.drop_first()[j] != '@' by {
            assert(s.drop_first()[j] == s[j + 1]);
        }
        assert(s.drop_first()[i - 1] == s[i]);
        lemma_first_at_is(s.drop_first(), i - 1);
    }
}

/// If no position of `s` holds an `@`, the first `@` is at `s.len()`.
proof fn lemma_first_at_none(s: Seq<char>)
    requires
        forall|j: int| 0 <= j < s.len() ==> s[j] != '@',
    ensures
        first_at(s) == s.len(),
    decreases s.len(),
{
    if s.len() != 0 {
        assert forall|j: int| 0 <= j < s.drop_first().len() implies s.drop_first()[j] != '@' by {
            assert(s.drop_first()[j] == s[j + 1]);
        }
        lemma_first_at_none(s.drop_first());
    }
}

/// Reference parsing is total and faithful: every input yields `Repo` or
/// `Branch`; a `Repo` carries the whole input, which holds no `@`; a
/// `Branch(p, b)` reassembles to the input as `p + '@' + b` with no `@` in
/// `p`.
pub proof fn lemma_parse_ref_total(s: Seq<char>)
    ensures
        match spec_parse_ref(s) {
            RefShape::Repo(p) => p == s && (forall|j: int| 0 <= j < s.len() ==> s[j] != '@'),
            RefShape::Branch(p, b) => {
                &&& s =~= p + seq!['@'] + b
                &&& forall|j: int| 0 <= j < p.len() ==> p[j] != '@'
            },
        },
{
    lemma_first_at(s);
}

impl GitlabRef {
    /// Parse a reference, splitting at the first `@`.
    pub fn from(item: &str) -> (r: GitlabRef)
        ensures
            r@ == spec_parse_ref(item@),
    {
        let n = item.unicode_len();
        let mut i: usize = 0;
        while i < n
            invariant
                0 <= i <= n,
                n == item@.len(),
                forall|j: int| 0 <= j < i ==> item@[j] != '@',
            decreases n - i,
        {
            if item.get_char(i) == '@' {
                proof {
                    lemma_first_at_is(item@, i as int);
                }
                let prefix = item.substring_char(0, i);
                let suffix = item.substring_char(i + 1, n);
                proof {
                    assert(prefix@ =~= item@.take(i as int));
                    assert(suffix@ =~= item@.skip(i + 1));
                }
                return GitlabRef::Branch(
                    String::from_str(prefix),
                    String::from_str(suffix),
                );
            }
            i = i + 1;
        }
        proof {
            lemma_first_at_none(item@);
        }
        GitlabRef::Repo(String::from_str(item))
    }
}

} // verus!
