//! The output abstraction that formatter definitions render into.
//!
//! A [`Sink`] accepts sequential writes of text fragments and reports a single
//! kind of failure: it can no longer accept writes ([`SinkError`]).  A sink
//! created with [`Sink::new`] is unbounded and never fails; one created with
//! [`Sink::with_limit`] rejects any write that would push the total number of
//! characters past its limit, leaving its contents unchanged.

use vstd::prelude::*;
use vstd::string::*;

verus! {

/// The single runtime failure of the rendering path: the output sink cannot
/// accept further writes.
#[derive(Clone, Copy, Debug, PartialEq, Eq, Structural)]
pub struct SinkError;

/// An output sink: a growing buffer of characters, optionally bounded.
pub struct Sink {
    buf: String,
    limit: Option<usize>,
}

/// The decimal digit character for `d`.
pub open spec fn digit_char(d: nat) -> char
    recommends
        d < 10,
{
    if d == 0 {
        '0'
    } else if d == 1 {
        '1'
    } else if d == 2 {
        '2'
    } else if d == 3 {
        '3'
    } else if d == 4 {
        '4'
    } else if d == 5 {
        '5'
    } else if d == 6 {
        '6'
    } else if d == 7 {
        '7'
    } else if d == 8 {
        '8'
    } else {
        '9'
    }
}

/// The decimal rendering of `n`: most significant digit first, no sign and no
/// leading zeroes (zero itself renders as a single `'0'`).
pub open spec fn dec_chars(n: nat) -> Seq<char>
    decreases n,
{
    if n < 10 {
        seq![digit_char(n)]
    } else {
        dec_chars(n / 10).push(digit_char(n % 10))
    }
}

/// The one-character string for the decimal digit `d`.
fn digit_str(d: u64) -> (r: &'static str)
    requires
        d < 10,
    ensures
        r@ == seq![digit_char(d as nat)],
{
    if d == 0 {
        proof {
            reveal_strlit("0");
            assert("0"@ =~= seq![digit_char(d as nat)]);
        }
        "0"
    } else if d == 1 {
        proof {
            reveal_strlit("1");
            assert("1"@ =~= seq![digit_char(d as nat)]);
        }
        "1"
    } else if d == 2 {
        proof {
            reveal_strlit("2");
            assert("2"@ =~= seq![digit_char(d as nat)]);
        }
        "2"
    } else if d == 3 {
        proof {
            reveal_strlit("3");
            assert("3"@ =~= seq![digit_char(d as nat)]);
        }
        "3"
    } else if d == 4 {
        proof {
            reveal_strlit("4");
            assert("4"@ =~= seq![digit_char(d as nat)]);
        }
        "4"
    } else if d == 5 {
        proof {
            reveal_strlit("5");
            assert("5"@ =~= seq![digit_char(d as nat)]);
        }
        "5"
    } else if d == 6 {
        proof {
            reveal_strlit("6");
            assert("6"@ =~= seq![digit_char(d as nat)]);
        }
        "6"
    } else if d == 7 {
        proof {
            reveal_strlit("7");
            assert("7"@ =~= seq![digit_char(d as nat)]);
        }
        "7"
    } else if d == 8 {
        proof {
            reveal_strlit("8");
            assert("8"@ =~= seq![digit_char(d as nat)]);
        }
        "8"
    } else {
        proof {
            reveal_strlit("9");
            assert("9"@ =~= seq![digit_char(d as nat)]);
        }
        "9"
    }
}

impl Sink {
    /// The characters written so far.
    pub closed spec fn out(self) -> Seq<char> {
        self.buf@
    }

    /// The capacity bound, in characters, that the sink was created with;
    /// `None` for an unbounded sink.
    pub closed spec fn limit(self) -> Option<usize> {
        self.limit
    }

    /// Whether the sink can accept `n` further characters.
    pub open spec fn can_accept(self, n: nat) -> bool {
        match self.limit() {
            None => true,
            Some(l) => self.out().len() + n <= l,
        }
    }

    /// Creates an empty, unbounded sink; writes to it always succeed.
    pub fn new() -> (r: Sink)
        ensures
            r.out() == Seq::<char>::empty(),
            r.limit() is None,
    {
        Sink { buf: String::new(), limit: None }
    }

    /// Creates an empty sink that accepts at most `limit` characters in all.
    pub fn with_limit(limit: usize) -> (r: Sink)
        ensures
            r.out() == Seq::<char>::empty(),
            r.limit() == Some(limit),
    {
        Sink { buf: String::new(), limit: Some(limit) }
    }

    /// Appends `s` to the sink.  Succeeds exactly when the sink can accept
    /// all of `s`; on failure the contents are unchanged.
    pub fn write_str(&mut self, s: &str) -> (r: Result<(), SinkError>)
        ensures
            final(self).limit() == old(self).limit(),
            r is Ok <==> old(self).can_accept(s@.len()),
            r is Ok ==> final(self).out() == old(self).out() + s@,
            r is Err ==> final(self).out() == old(self).out(),
    {
        match self.limit {
            None => {
                self.buf.append(s);
                Ok(())
            },
            Some(l) => {
                let used = self.buf.as_str().unicode_len();
                let more = s.unicode_len();
                if used <= l && more <= l - used {
                    self.buf.append(s);
                    Ok(())
                } else {
                    Err(SinkError)
                }
            },
        }
    }

    /// Appends `s` to a sink that is known to have room for it.
    pub fn push_str(&mut self, s: &str)
        requires
            old(self).can_accept(s@.len()),
        ensures
            final(self).limit() == old(self).limit(),
            final(self).out() == old(self).out() + s@,
    {
        match self.write_str(s) {
            Ok(()) => {},
            Err(_) => {
                proof {
                    assert(false);
                }
            },
        }
    }

    /// Appends the decimal rendering of `n` to a sink that is known to have
    /// room for it.
    pub fn push_u64(&mut self, n: u64)
        requires
            old(self).can_accept(dec_chars(n as nat).len()),
        ensures
            final(self).limit() == old(self).limit(),
            final(self).out() == old(self).out() + dec_chars(n as nat),
        decreases n,
    {
        if n < 10 {
            self.push_str(digit_str(n));
        } else {
            proof {
                assert(dec_chars(n as nat) =~= dec_chars(n as nat / 10) + seq![
                    digit_char(n as nat % 10),
                ]);
            }
            self.push_u64(n / 10);
            self.push_str(digit_str(n % 10));
            proof {
                assert(self.out() =~= old(self).out() + dec_chars(n as nat));
            }
        }
    }

    /// Appends the decimal rendering of `n`.  Succeeds exactly when the sink
    /// can accept all of its digits; on failure the contents are unchanged.
    pub fn write_u64(&mut self, n: u64) -> (r: Result<(), SinkError>)
        ensures
            final(self).limit() == old(self).limit(),
            r is Ok <==> old(self).can_accept(dec_chars(n as nat).len()),
            r is Ok ==> final(self).out() == old(self).out() + dec_chars(n as nat),
            r is Err ==> final(self).out() == old(self).out(),
    {
        let mut digits = Sink::new();
        digits.push_u64(n);
        self.write_str(digits.as_str())
    }

    /// The rendered text written so far.
    pub fn as_str(&self) -> (r: &str)
        ensures
            r@ == self.out(),
    {
        self.buf.as_str()
    }
}

} // verus!
