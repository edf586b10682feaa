//! Pads user names to a common column width that grows with the longest
//! name seen so far.
use vstd::prelude::*;

verus! {

/// Relies on String::push: appends one character to the string.
#[verifier::external_body]
fn push_char(s: &mut String, c: char)
    ensures
        final(s)@ == old(s)@.push(c),
{
    s.push(c)
}

/// `v` padded on the right with spaces to width `w`; unchanged when already
/// at least that wide.
pub open spec fn padded(v: Seq<char>, w: nat) -> Seq<char> {
    if v.len() >= w {
        v
    } else {
        v + Seq::new((w - v.len()) as nat, |i: int| ' ')
    }
}

/// Pads values to the widest width seen since the last reset.
#[derive(Debug, Clone, Copy, PartialEq, Eq, Structural)]
pub struct StringPadder {
    pub current_max: u32,
}

impl StringPadder {
    /// A padder that has seen nothing: width zero.
    pub fn new() -> (r: StringPadder)
        ensures
            r.current_max == 0,
    {
        StringPadder { current_max: 0 }
    }

    /// Pad `value` to the widest width seen so far, then widen that width to
    /// `value`'s length if it is longer.  The width grows only after the
    /// padding, so the first longer value itself arrives unpadded.
    pub fn add_pad(&mut self, value: &str) -> (r: String)
        requires
            value@.len() <= u32::MAX,
        ensures
            r@ == padded(value@, old(self).current_max as nat),
            final(self).current_max == if value@.len() > old(self).current_max {
                value@.len() as u32
            } else {
                old(self).current_max
            },
    {
        let count = value.unicode_len();
        let width = self.current_max as usize;
        let mut s = value.to_owned();
        let mut i: usize = count;
        while i < width
            invariant
                count <= i,
                count == value@.len(),
                width <= u32::MAX,
                i <= width || i == count,
                s@ == value@ + Seq::new((i - count) as nat, |j: int| ' '),
            decreases width - i,
        {
            push_char(&mut s, ' ');
            proof {
                assert(value@ + Seq::new((i + 1 - count) as nat, |j: int| ' ') =~= (value@
                    + Seq::new((i - count) as nat, |j: int| ' ')).push(' '));
            }
            i += 1;
        }
        proof {
            if count >= width {
                assert(s@ =~= value@ + Seq::new(0, |j: int| ' '));
                assert(s@ =~= padded(value@, width as nat));
            } else {
                assert(s@ =~= padded(value@, width as nat));
            }
        }
        if (count as u32) > self.current_max {
            self.current_max = count as u32;
        }
        s
    }

    /// Forget the widest width seen: padding starts over.
    pub fn reset(&mut self)
        ensures
            final(self).current_max == 0,
    {
        self.current_max = 0;
    }
}

} // verus!
