//! Small helpers: a fixed-capacity vector and null-byte sanitizing for
//! strings handed to the native layer (which treats NUL as a terminator).

use vstd::prelude::*;
use vstd::string::StrSliceExecFns;
use vstd::string::StringExecFns;

verus! {

/// Whether the string contains a NUL character.
pub fn str_has_nulls(s: &str) -> (r: bool)
    ensures
        r == s@.contains('\0'),
{
    let len = s.unicode_len();
    let mut i: usize = 0;
    while i < len
        invariant
            i <= len,
            len == s@.len(),
            forall|j: int| 0 <= j < i ==> s@[j] != '\0',
        decreases len - i,
    {
        if s.get_char(i) == '\0' {
            assert(s@.contains('\0')) by {
                assert(s@[i as int] == '\0');
            }
            return true;
        }
        i += 1;
    }
    assert(!s@.contains('\0'));
    false
}

/// The string with every NUL character replaced by a space.
pub open spec fn spec_sweep_nulls(s: Seq<char>) -> Seq<char> {
    s.map(|i: int, c: char| if c == '\0' { ' ' } else { c })
}

/// Sweeping leaves no NUL behind and keeps the length: every character is
/// either kept or turned into a space.
pub proof fn lemma_sweep_removes_nulls(s: Seq<char>)
    ensures
        !spec_sweep_nulls(s).contains('\0'),
        spec_sweep_nulls(s).len() == s.len(),
{
    let swept = spec_sweep_nulls(s);
    assert forall|i: int| 0 <= i < swept.len() implies swept[i] != '\0' by {
        assert(swept[i] == (if s[i] == '\0' {
            ' '
        } else {
            s[i]
        }));
    }
}

/// Replaces every NUL character in `s` with a space, in place.
pub fn str_sweep_nulls(s: &mut String)
    ensures
        final(s)@ == spec_sweep_nulls(old(s)@),
{
    let ghost orig: Seq<char> = s@;
    let mut out = String::new();
    let len = s.as_str().unicode_len();
    let mut i: usize = 0;
    while i < len
        invariant
            i <= len,
            s@ == orig,
            len == orig.len(),
            out@ == spec_sweep_nulls(orig.subrange(0, i as int)),
        decreases len - i,
    {
        let c = s.as_str().get_char(i);
        if c == '\0' {
            out.append(" ");
            proof {
                reveal_strlit(" ");
                assert(out@ =~= spec_sweep_nulls(orig.subrange(0, i + 1)));
            }
        } else {
            let piece = s.as_str().substring_char(i, i + 1);
            out.append(piece);
            proof {
                assert(piece@ =~= seq![orig[i as int]]);
                assert(out@ =~= spec_sweep_nulls(orig.subrange(0, i + 1)));
            }
        }
        i += 1;
    }
    proof {
        assert(orig.subrange(0, len as int) =~= orig);
    }
    *s = out;
}

/// A vector with a fixed capacity `N`: pushes that would exceed the capacity
/// are refused rather than growing the storage.
pub struct FixedVec<T, const N: usize> {
    vec: Vec<T>,
}

impl<T, const N: usize> View for FixedVec<T, N> {
    type V = Seq<T>;

    closed spec fn view(&self) -> Seq<T> {
        self.vec@
    }
}

impl<T: Copy, const N: usize> FixedVec<T, N> {
    /// The capacity bound always holds.
    pub open spec fn wf(&self) -> bool {
        self@.len() <= N
    }

    /// Creates an empty vector.
    pub fn new() -> (r: Self)
        ensures
            r@ == Seq::<T>::empty(),
            r.wf(),
    {
        FixedVec { vec: Vec::new() }
    }

    /// Removes all contents.
    pub fn clear(&mut self)
        ensures
            final(self)@ == Seq::<T>::empty(),
            final(self).wf(),
    {
        self.vec.clear();
    }

    /// Appends one item if there is room; reports whether it was appended.
    pub fn push(&mut self, item: &T) -> (r: bool)
        requires
            old(self).wf(),
        ensures
            final(self).wf(),
            old(self)@.len() < N ==> r && final(self)@ == old(self)@.push(*item),
            old(self)@.len() >= N ==> !r && final(self)@ == old(self)@,
    {
        if self.vec.len() < N {
            self.vec.push(*item);
            true
        } else {
            false
        }
    }

    /// Appends all items if there is room for the whole batch, else appends
    /// nothing; reports whether the batch was appended.
    pub fn push_many(&mut self, items: &[T]) -> (r: bool)
        requires
            old(self).wf(),
        ensures
            final(self).wf(),
            old(self)@.len() + items@.len() <= N ==> r && final(self)@ == old(self)@ + items@,
            old(self)@.len() + items@.len() > N ==> !r && final(self)@ == old(self)@,
    {
        if items.len() <= N - self.vec.len() {
            let ghost start: Seq<T> = self.vec@;
            let mut i: usize = 0;
            while i < items.len()
                invariant
                    i <= items@.len(),
                    start.len() + items@.len() <= N,
                    self.vec@ == start + items@.subrange(0, i as int),
                decreases items@.len() - i,
            {
                self.vec.push(items[i]);
                proof {
                    assert(self.vec@ =~= start + items@.subrange(0, i + 1));
                }
                i += 1;
            }
            proof {
                assert(start + items@.subrange(0, items@.len() as int) =~= start + items@);
            }
            true
        } else {
            false
        }
    }

    /// Borrows the contents.
    pub fn slice(&self) -> (r: &[T])
        ensures
            r@ == self@,
    {
        self.vec.as_slice()
    }
}

} // verus!
