//! Elapsed-time values and their compact human-readable form.

use vstd::prelude::*;
use vstd::string::StringExecFns;
use crate::text::{decimal, push_char, push_decimal};

verus! {

/// A span of time in whole seconds.
#[derive(Clone, Copy, Debug, PartialEq, Eq, Structural)]
pub struct Duration {
    pub secs: u64,
}

impl Duration {
    pub fn from_secs(secs: u64) -> (r: Duration)
        ensures
            r.secs == secs,
    {
        Duration { secs }
    }

    pub fn as_secs(&self) -> (r: u64)
        ensures
            r == self.secs,
    {
        self.secs
    }
}

/// The integer nearest to `n / d`, a half rounded away from zero.
pub open spec fn nearest(n: nat, d: nat) -> nat
    recommends
        d > 0,
{
    ((2 * n + d) / (2 * d)) as nat
}

/// A count of halves written as a number: `3` halves is `1.5`, `4` is `2`.
pub open spec fn halves_text(h: nat) -> Seq<char> {
    if h % 2 == 0 {
        decimal(h / 2)
    } else {
        decimal(h / 2) + seq!['.', '5']
    }
}

/// The compact form of `secs` seconds: whole seconds below a minute, else
/// minutes below an hour, else hours, the latter two to the nearest half.
pub open spec fn duration_text(secs: nat) -> Seq<char> {
    if secs < 60 {
        decimal(secs).push('s')
    } else if secs < 3600 {
        halves_text(nearest(2 * secs, 60)).push('m')
    } else {
        halves_text(nearest(2 * secs, 3600)).push('h')
    }
}

/// Appends `h` halves written as a number.
fn push_halves(s: &mut String, h: u64)
    ensures
        final(s)@ == old(s)@ + halves_text(h as nat),
{
    push_decimal(s, h / 2);
    if h % 2 == 1 {
        push_char(s, '.');
        push_char(s, '5');
    }
    assert(final(s)@ =~= old(s)@ + halves_text(h as nat));
}

/// Renders an elapsed time as a short string such as `45s`, `1.5m` or `2h`.
pub trait DurationFormatter {
    spec fn formatted(&self) -> Seq<char>;

    fn format(&self) -> (r: String)
        ensures
            r@ == self.formatted(),
    ;
}

impl DurationFormatter for Duration {
    open spec fn formatted(&self) -> Seq<char> {
        duration_text(self.secs as nat)
    }

    fn format(&self) -> (r: String) {
        let secs = self.secs;
        let mut r = String::new();
        if secs < 60 {
            push_decimal(&mut r, secs);
            push_char(&mut r, 's');
        } else if secs < 3600 {
            let h: u128 = (4 * (secs as u128) + 60) / 120;
            push_halves(&mut r, h as u64);
            push_char(&mut r, 'm');
        } else {
            let h: u128 = (4 * (secs as u128) + 3600) / 7200;
            push_halves(&mut r, h as u64);
            push_char(&mut r, 'h');
        }
        assert(r@ =~= duration_text(secs as nat));
        r
    }
}

} // verus!
