//! Resolution of a device's symbolic link inside a kernel object directory.
//!
//! The operating system's directory query is a two-phase protocol per entry:
//! a zero-length probe that reports the exact buffer size required, then a
//! fetch with a buffer of that size. The host performs the blocking calls and
//! feeds every status and every extracted entry name to a [`Resolver`], which
//! makes all decisions: whether to fetch and with how many bytes, whether an
//! entry matches the sought name fragment, and when the search is over.

use vstd::prelude::*;
use vstd::string::StrSliceExecFns;
use vstd::string::StringExecFns;

verus! {

/// The status code with which a directory query reports that the probe
/// buffer was too small and a fetch of the reported size is needed
/// (NTSTATUS 0xC0000023 as a signed 32-bit value).
pub const STATUS_BUFFER_TOO_SMALL: i32 = -1073741789;

/// The object-namespace root under which the device's symbolic link lives.
pub fn namespace_root() -> (r: String)
    ensures
        r@ == "\\GLOBAL??"@,
{
    String::from_str("\\GLOBAL??")
}

/// The vendor token that identifies the target driver's link by substring.
pub fn device_name_fragment() -> (r: String)
    ensures
        r@ == "RZCONTROL"@,
{
    String::from_str("RZCONTROL")
}

/// `frag` occurs in `name` starting at character position `i`.
pub open spec fn match_at(name: Seq<char>, frag: Seq<char>, i: int) -> bool {
    &&& 0 <= i
    &&& i + frag.len() <= name.len()
    &&& name.subrange(i, i + frag.len()) == frag
}

/// `frag` occurs somewhere in `name` (case-sensitive substring).
pub open spec fn contains_fragment(name: Seq<char>, frag: Seq<char>) -> bool {
    exists|i: int| match_at(name, frag, i)
}

/// No entry of `entries` contains `frag`.
pub open spec fn no_match_among(entries: Seq<Seq<char>>, frag: Seq<char>) -> bool {
    forall|i: int| 0 <= i < entries.len() ==> !contains_fragment(entries[i], frag)
}

/// Case-sensitive substring test: whether `frag` occurs in `name`.
pub fn name_contains(name: &str, frag: &str) -> (r: bool)
    ensures
        r == contains_fragment(name@, frag@),
{
    let n = name.unicode_len();
    let m = frag.unicode_len();
    if m > n {
        proof {
            assert forall|k: int| !match_at(name@, frag@, k) by {
                if 0 <= k && k + frag@.len() <= name@.len() {
                    assert(k <= name@.len() - frag@.len() < 0);
                }
            }
        }
        return false;
    }
    let mut i: usize = 0;
    while i <= n - m
        invariant
            m <= n,
            n == name@.len(),
            m == frag@.len(),
            i <= n - m + 1,
            forall|k: int| 0 <= k < i ==> !match_at(name@, frag@, k),
        decreases n - m + 1 - i,
    {
        let mut j: usize = 0;
        let mut matched: bool = true;
        while j < m && matched
            invariant
                m <= n,
                n == name@.len(),
                m == frag@.len(),
                i + m <= n,
                j <= m,
                matched ==> forall|l: int| 0 <= l < j ==> name@[i + l] == frag@[l],
                !matched ==> exists|l: int| 0 <= l < m && name@[i + l] != frag@[l],
            decreases m - j + (if matched {
                1int
            } else {
                0int
            }),
        {
            if name.get_char(i + j) == frag.get_char(j) {
                j += 1;
            } else {
                proof {
                    assert(0 <= j < m && name@[i + j] != frag@[j as int]);
                }
                matched = false;
            }
        }
        if matched {
            proof {
                assert(name@.subrange(i as int, i + m) =~= frag@) by {
                    assert forall|l: int| 0 <= l < m implies name@.subrange(i as int, i + m)[l]
                        == frag@[l] by {
                        assert(name@.subrange(i as int, i + m)[l] == name@[i + l]);
                    }
                }
                assert(match_at(name@, frag@, i as int));
            }
            return true;
        }
        proof {
            assert(!match_at(name@, frag@, i as int)) by {
                let l = choose|l: int| 0 <= l < m && name@[i + l] != frag@[l];
                if name@.subrange(i as int, i + m) == frag@ {
                    assert(name@.subrange(i as int, i + m)[l] == name@[i + l]);
                }
            }
        }
        i += 1;
    }
    proof {
        assert forall|k: int| !match_at(name@, frag@, k) by {
            if 0 <= k && k + frag@.len() <= name@.len() {
                assert(k < i);
            }
        }
    }
    false
}

/// Where a resolution stands: still enumerating, finished with the first
/// matching entry's name, or finished with the directory exhausted.
#[derive(Debug)]
pub enum ResolveOutcome {
    Pending,
    Found(String),
    NotFound,
}

/// The decision-making half of one symbolic-link resolution.
///
/// One `Resolver` corresponds to one open directory handle and one monotonic
/// query cursor, both held by the host; a fresh enumeration needs a fresh
/// `Resolver`. Distinct resolutions are independent values and share nothing.
/// The ghost field `seen` records every entry name the host has handed in,
/// in the order the directory produced them.
pub struct Resolver {
    pub fragment: String,
    pub outcome: ResolveOutcome,
    pub seen: Ghost<Seq<Seq<char>>>,
}

impl Resolver {
    /// The outcome pins down the first match among the entries seen so far:
    /// while pending and when the directory is exhausted, no seen entry
    /// contains the fragment; a found name is the latest seen entry, contains
    /// the fragment, and every earlier entry does not.
    pub open spec fn wf(&self) -> bool {
        match self.outcome {
            ResolveOutcome::Pending => no_match_among(self.seen@, self.fragment@),
            ResolveOutcome::NotFound => no_match_among(self.seen@, self.fragment@),
            ResolveOutcome::Found(name) => {
                &&& self.seen@.len() > 0
                &&& self.seen@.last() == name@
                &&& contains_fragment(name@, self.fragment@)
                &&& no_match_among(self.seen@.drop_last(), self.fragment@)
            },
        }
    }

    /// Starts a resolution for entries containing `fragment`.
    pub fn new(fragment: String) -> (r: Resolver)
        ensures
            r.wf(),
            r.outcome is Pending,
            r.fragment@ == fragment@,
            r.seen@ == Seq::<Seq<char>>::empty(),
    {
        Resolver { fragment, outcome: ResolveOutcome::Pending, seen: Ghost(Seq::empty()) }
    }

    /// Decides what follows a zero-length probe that returned `status` and
    /// reported `required` bytes: fetch with exactly that many bytes when the
    /// probe said the buffer was too small; otherwise the directory is
    /// exhausted and the search ends (with no error: an exhausted namespace
    /// is a legitimate end of the sequence).
    pub fn on_probe(&mut self, status: i32, required: u32) -> (fetch: Option<u32>)
        requires
            old(self).wf(),
            old(self).outcome is Pending,
        ensures
            final(self).wf(),
            final(self).fragment == old(self).fragment,
            final(self).seen == old(self).seen,
            fetch == (if status == STATUS_BUFFER_TOO_SMALL {
                Some(required)
            } else {
                None::<u32>
            }),
            fetch is Some ==> final(self).outcome is Pending,
            fetch is None ==> final(self).outcome is NotFound,
    {
        if status == STATUS_BUFFER_TOO_SMALL {
            Some(required)
        } else {
            self.outcome = ResolveOutcome::NotFound;
            None
        }
    }

    /// Decides what follows the fetch itself: a negative status aborts the
    /// enumeration (treated as end-of-directory), a non-negative one means an
    /// entry was produced and its name should be handed to [`Self::on_entry`].
    pub fn on_fetch_status(&mut self, status: i32) -> (ok: bool)
        requires
            old(self).wf(),
            old(self).outcome is Pending,
        ensures
            final(self).wf(),
            final(self).fragment == old(self).fragment,
            final(self).seen == old(self).seen,
            ok == (status >= 0),
            ok ==> final(self).outcome is Pending,
            !ok ==> final(self).outcome is NotFound,
    {
        if status >= 0 {
            true
        } else {
            self.outcome = ResolveOutcome::NotFound;
            false
        }
    }

    /// Takes the next entry name the directory produced. Returns whether it
    /// is the first entry containing the fragment, which ends the search.
    pub fn on_entry(&mut self, name: String) -> (matched: bool)
        requires
            old(self).wf(),
            old(self).outcome is Pending,
        ensures
            final(self).wf(),
            final(self).fragment == old(self).fragment,
            final(self).seen@ == old(self).seen@.push(name@),
            matched == contains_fragment(name@, old(self).fragment@),
            matched ==> final(self).outcome == ResolveOutcome::Found(name),
            !matched ==> final(self).outcome is Pending,
    {
        let ghost name_view = name@;
        let ghost old_seen = self.seen@;
        let matched = name_contains(name.as_str(), self.fragment.as_str());
        proof {
            self.seen@ = old_seen.push(name_view);
            assert(old_seen.push(name_view).drop_last() =~= old_seen);
        }
        if matched {
            self.outcome = ResolveOutcome::Found(name);
            true
        } else {
            proof {
                assert forall|i: int| 0 <= i < self.seen@.len() implies !contains_fragment(
                    self.seen@[i],
                    self.fragment@,
                ) by {
                    if i < old_seen.len() {
                        assert(self.seen@[i] == old_seen[i]);
                    } else {
                        assert(self.seen@[i] == name_view);
                    }
                }
            }
            false
        }
    }
}

/// Resolutions do not interfere: a `Resolver` is a plain value with no
/// shared state, so a verdict is a function of that resolution's own
/// fragment and the entries its own cursor produced, whatever ran beside it.
/// Two finished resolutions that saw the same entries for the same fragment
/// therefore reach the same verdict.
pub proof fn lemma_resolutions_independent(r1: &Resolver, r2: &Resolver)
    requires
        r1.wf(),
        r2.wf(),
        !(r1.outcome is Pending),
        !(r2.outcome is Pending),
        r1.fragment@ == r2.fragment@,
        r1.seen@ == r2.seen@,
    ensures
        r1.outcome is Found <==> r2.outcome is Found,
        r1.outcome matches ResolveOutcome::Found(n1) ==> (r2.outcome matches ResolveOutcome::Found(
            n2,
        ) && n1@ == n2@),
{
    match r1.outcome {
        ResolveOutcome::Found(n1) => {
            assert(r1.seen@[r1.seen@.len() - 1] == n1@);
            assert(!(r2.outcome is NotFound)) by {
                if r2.outcome is NotFound {
                    assert(!contains_fragment(r2.seen@[r2.seen@.len() - 1], r2.fragment@));
                }
            }
        },
        _ => {},
    }
    match r2.outcome {
        ResolveOutcome::Found(n2) => {
            assert(r2.seen@[r2.seen@.len() - 1] == n2@);
            assert(!(r1.outcome is NotFound)) by {
                if r1.outcome is NotFound {
                    assert(!contains_fragment(r1.seen@[r1.seen@.len() - 1], r1.fragment@));
                }
            }
        },
        _ => {},
    }
}

} // verus!
