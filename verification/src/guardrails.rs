use vstd::prelude::*;
use vstd::string::StrSliceExecFns;
use crate::errors::PipelineError;

verus! {

// The guardrail gate is the policy enforcement point consulted immediately
// before generation. It has read-only access to the context and holds no
// pipeline state. A denial is a terminal routing outcome, not an error.

/// `needle` occurs in `hay` starting at position `i`.
pub open spec fn occurs_at(hay: Seq<char>, needle: Seq<char>, i: int) -> bool {
    0 <= i && i + needle.len() <= hay.len() && hay.subrange(i, i + needle.len()) == needle
}

/// `needle` occurs somewhere in `hay`.
pub open spec fn contains_term(hay: Seq<char>, needle: Seq<char>) -> bool {
    exists|i: int| occurs_at(hay, needle, i)
}

/// A context is allowed when no blocked term occurs in it.
pub open spec fn spec_allowed(terms: Seq<Seq<char>>, context: Seq<char>) -> bool {
    forall|k: int| 0 <= k < terms.len() ==> !contains_term(context, #[trigger] terms[k])
}

/// The guardrail gate: a context is denied when it contains any of the
/// configured blocked terms. An empty configuration allows everything.
pub struct GuardrailEngine {
    blocked_terms: Vec<String>,
}

impl GuardrailEngine {
    /// The blocked terms, as sequences of characters.
    pub closed spec fn blocked_view(&self) -> Seq<Seq<char>> {
        self.blocked_terms@.map_values(|s: String| s@)
    }

    /// A gate with no blocked terms: it allows every context.
    pub fn new() -> (r: Result<GuardrailEngine, PipelineError>)
        ensures
            r matches Ok(g) && g.blocked_view() == Seq::<Seq<char>>::empty(),
    {
        let g = GuardrailEngine { blocked_terms: Vec::new() };
        proof {
            assert(g.blocked_view() =~= Seq::<Seq<char>>::empty());
        }
        Ok(g)
    }

    /// A gate enforcing the given blocked terms.
    pub fn with_blocked_terms(terms: Vec<String>) -> (r: GuardrailEngine)
        ensures
            r.blocked_view() == terms@.map_values(|s: String| s@),
    {
        GuardrailEngine { blocked_terms: terms }
    }

    /// Check whether the provided context violates any guardrail: true
    /// exactly when no blocked term occurs in the context.
    pub fn is_allowed(&self, context: &str) -> (r: bool)
        ensures
            r == spec_allowed(self.blocked_view(), context@),
    {
        let mut k: usize = 0;
        while k < self.blocked_terms.len()
            invariant
                k <= self.blocked_terms@.len(),
                forall|j: int|
                    0 <= j < k ==> !contains_term(context@, #[trigger] self.blocked_view()[j]),
            decreases self.blocked_terms@.len() - k,
        {
            if str_contains(context, self.blocked_terms[k].as_str()) {
                proof {
                    assert(self.blocked_view()[k as int] == self.blocked_terms@[k as int]@);
                }
                return false;
            }
            k = k + 1;
        }
        true
    }
}

/// `needle` occurs in `hay` at position `at`; lengths are passed in so they
/// are counted once.
fn matches_at(hay: &str, needle: &str, at: usize, hay_len: usize, needle_len: usize) -> (r: bool)
    requires
        hay_len == hay@.len(),
        needle_len == needle@.len(),
        at + needle_len <= hay_len,
    ensures
        r == occurs_at(hay@, needle@, at as int),
{
    let mut j: usize = 0;
    while j < needle_len
        invariant
            hay_len == hay@.len(),
            needle_len == needle@.len(),
            at + needle_len <= hay_len,
            j <= needle_len,
            forall|k: int| 0 <= k < j ==> hay@[at + k] == needle@[k],
        decreases needle_len - j,
    {
        if hay.get_char(at + j) != needle.get_char(j) {
            proof {
                assert(hay@.subrange(at as int, at + needle@.len())[j as int] == hay@[
                    at + j as int
                ]);
            }
            return false;
        }
        j = j + 1;
    }
    proof {
        assert(hay@.subrange(at as int, at + needle@.len()) =~= needle@);
    }
    true
}

/// Whether `needle` occurs anywhere in `hay`.
fn str_contains(hay: &str, needle: &str) -> (r: bool)
    ensures
        r == contains_term(hay@, needle@),
{
    let hay_len: usize = hay.unicode_len();
    let needle_len: usize = needle.unicode_len();
    if needle_len == 0 {
        proof {
            assert(occurs_at(hay@, needle@, 0)) by {
                assert(hay@.subrange(0, 0) =~= needle@);
            }
        }
        return true;
    }
    if needle_len > hay_len {
        proof {
            assert forall|i: int| !occurs_at(hay@, needle@, i) by {}
        }
        return false;
    }
    let mut i: usize = 0;
    while i <= hay_len - needle_len
        invariant
            hay_len == hay@.len(),
            needle_len == needle@.len(),
            1 <= needle_len <= hay_len,
            i <= hay_len - needle_len + 1,
            forall|k: int| 0 <= k < i ==> !occurs_at(hay@, needle@, k),
        decreases hay_len - needle_len + 1 - i,
    {
        if matches_at(hay, needle, i, hay_len, needle_len) {
            return true;
        }
        i = i + 1;
    }
    proof {
        assert forall|k: int| !occurs_at(hay@, needle@, k) by {
            if 0 <= k < hay_len - needle_len + 1 {
            }
        }
    }
    false
}

} // verus!
