//! Textual rendering of types for diagnostic messages: a decimal notation
//! for opaque identifiers and a compact notation for each type shape.

use vstd::prelude::*;
use vstd::string::StringExecFns;

use crate::types::Capability;
use crate::types::Type;

verus! {

/// The decimal digit character for `d` (meaningful for `0 <= d < 10`).
pub open spec fn decimal_digit(d: int) -> char {
    if d == 0 {
        '0'
    } else if d == 1 {
        '1'
    } else if d == 2 {
        '2'
    } else if d == 3 {
        '3'
    } else if d == 4 {
        '4'
    } else if d == 5 {
        '5'
    } else if d == 6 {
        '6'
    } else if d == 7 {
        '7'
    } else if d == 8 {
        '8'
    } else {
        '9'
    }
}

/// The usual decimal rendering of a non-negative integer, most significant
/// digit first, with no leading zeros (except for zero itself).
pub open spec fn decimal_text(n: int) -> Seq<char>
    recommends
        n >= 0,
    decreases n,
{
    if n < 10 {
        seq![decimal_digit(n)]
    } else {
        decimal_text(n / 10) + seq![decimal_digit(n % 10)]
    }
}

/// The rendering of one capability: its identifier, with a `<_>` marker when
/// the predicate carries bound variables.
pub open spec fn cap_text(c: Capability) -> Seq<char> {
    if c.has_bound_vars {
        decimal_text(c.id as int) + seq!['<', '_', '>']
    } else {
        decimal_text(c.id as int)
    }
}

/// The rendering of a capability set: its members in order, separated by `+`.
pub open spec fn caps_text(caps: Seq<Capability>) -> Seq<char>
    decreases caps.len(),
{
    if caps.len() == 0 {
        Seq::empty()
    } else if caps.len() == 1 {
        cap_text(caps[0])
    } else {
        caps_text(caps.drop_last()) + seq!['+'] + cap_text(caps.last())
    }
}

/// The rendering of a type: `&T` for references, `ptr<T>` for
/// smart-indirection containers, `dyn(...)` for dynamic-object types over
/// their capability set, and `t<id>` for opaque concrete types.
pub open spec fn type_text(t: Type) -> Seq<char>
    decreases t,
{
    match t {
        Type::Reference(inner) => seq!['&'] + type_text(*inner),
        Type::Indirect(inner) => seq!['p', 't', 'r', '<'] + type_text(*inner) + seq!['>'],
        Type::Dynamic(caps) => seq!['d', 'y', 'n', '('] + caps_text(caps@) + seq![')'],
        Type::Concrete(id) => seq!['t'] + decimal_text(id as int),
    }
}

/// The one-character string for a decimal digit.
fn digit_str(d: u64) -> (s: &'static str)
    requires
        d < 10,
    ensures
        s@ == seq![decimal_digit(d as int)],
{
    proof {
        reveal_strlit("0");
        reveal_strlit("1");
        reveal_strlit("2");
        reveal_strlit("3");
        reveal_strlit("4");
        reveal_strlit("5");
        reveal_strlit("6");
        reveal_strlit("7");
        reveal_strlit("8");
        reveal_strlit("9");
        assert(("0")@ =~= seq!['0']);
        assert(("1")@ =~= seq!['1']);
        assert(("2")@ =~= seq!['2']);
        assert(("3")@ =~= seq!['3']);
        assert(("4")@ =~= seq!['4']);
        assert(("5")@ =~= seq!['5']);
        assert(("6")@ =~= seq!['6']);
        assert(("7")@ =~= seq!['7']);
        assert(("8")@ =~= seq!['8']);
        assert(("9")@ =~= seq!['9']);
    }
    if d == 0 {
        "0"
    } else if d == 1 {
        "1"
    } else if d == 2 {
        "2"
    } else if d == 3 {
        "3"
    } else if d == 4 {
        "4"
    } else if d == 5 {
        "5"
    } else if d == 6 {
        "6"
    } else if d == 7 {
        "7"
    } else if d == 8 {
        "8"
    } else {
        "9"
    }
}

/// Append the decimal rendering of `n` to `out`.
fn append_decimal(out: &mut String, n: u64)
    ensures
        final(out)@ == old(out)@ + decimal_text(n as int),
    decreases n,
{
    if n >= 10 {
        append_decimal(out, n / 10);
    }
    let ds = digit_str(n % 10);
    out.append(ds);
    proof {
        if n >= 10 {
            assert(old(out)@ + decimal_text(n as int / 10) + seq![decimal_digit(n as int % 10)]
                =~= old(out)@ + decimal_text(n as int));
        } else {
            assert(old(out)@ + decimal_text(n as int)
                =~= old(out)@ + seq![decimal_digit(n as int)]);
        }
    }
}

/// Append the rendering of one capability to `out`.
fn append_cap(out: &mut String, c: Capability)
    ensures
        final(out)@ == old(out)@ + cap_text(c),
{
    append_decimal(out, c.id);
    if c.has_bound_vars {
        out.append("<_>");
        proof {
            reveal_strlit("<_>");
            assert(("<_>")@ =~= seq!['<', '_', '>']);
            assert(old(out)@ + decimal_text(c.id as int) + seq!['<', '_', '>']
                =~= old(out)@ + cap_text(c));
        }
    }
}

/// Append the rendering of a capability set to `out`.
fn append_caps(out: &mut String, caps: &Vec<Capability>)
    ensures
        final(out)@ == old(out)@ + caps_text(caps@),
{
    let ghost prefix: Seq<char> = out@;
    let n = caps.len();
    let mut j: usize = 0;
    while j < n
        invariant
            n == caps@.len(),
            j <= n,
            out@ == prefix + caps_text(caps@.take(j as int)),
        decreases n - j,
    {
        if j > 0 {
            out.append("+");
            proof {
                reveal_strlit("+");
                assert(("+")@ =~= seq!['+']);
            }
        }
        let ghost mid: Seq<char> = out@;
        append_cap(out, caps[j]);
        proof {
            let taken = caps@.take(j as int);
            let taken1 = caps@.take(j as int + 1);
            assert(taken1.drop_last() =~= taken);
            assert(taken1.last() == caps@[j as int]);
            if j == 0 {
                assert(caps_text(taken1) == cap_text(caps@[0]));
                assert(out@ =~= prefix + caps_text(taken1));
            } else {
                assert(caps_text(taken1)
                    == caps_text(taken) + seq!['+'] + cap_text(caps@[j as int]));
                assert(out@ =~= prefix + caps_text(taken1));
            }
        }
        j += 1;
    }
    proof {
        assert(caps@.take(n as int) =~= caps@);
    }
}

/// Append the rendering of a type to `out`.
fn append_type(out: &mut String, t: &Type)
    ensures
        final(out)@ == old(out)@ + type_text(*t),
    decreases *t,
{
    match t {
        Type::Reference(inner) => {
            out.append("&");
            append_type(out, inner);
            proof {
                reveal_strlit("&");
                assert(("&")@ =~= seq!['&']);
                assert(old(out)@ + ("&")@ + type_text(**inner)
                    =~= old(out)@ + type_text(*t));
            }
        },
        Type::Indirect(inner) => {
            out.append("ptr<");
            append_type(out, inner);
            out.append(">");
            proof {
                reveal_strlit("ptr<");
                reveal_strlit(">");
                assert(("ptr<")@ =~= seq!['p', 't', 'r', '<']);
                assert((">")@ =~= seq!['>']);
                assert(old(out)@ + ("ptr<")@ + type_text(**inner) + (">")@
                    =~= old(out)@ + type_text(*t));
            }
        },
        Type::Dynamic(caps) => {
            out.append("dyn(");
            append_caps(out, caps);
            out.append(")");
            proof {
                reveal_strlit("dyn(");
                reveal_strlit(")");
                assert(("dyn(")@ =~= seq!['d', 'y', 'n', '(']);
                assert((")")@ =~= seq![')']);
                assert(old(out)@ + ("dyn(")@ + caps_text(caps@) + (")")@
                    =~= old(out)@ + type_text(*t));
            }
        },
        Type::Concrete(id) => {
            out.append("t");
            append_decimal(out, *id);
            proof {
                reveal_strlit("t");
                assert(("t")@ =~= seq!['t']);
                assert(old(out)@ + ("t")@ + decimal_text(*id as int)
                    =~= old(out)@ + type_text(*t));
            }
        },
    }
}

/// The rendering of a type as an owned string.
pub fn type_text_string(t: &Type) -> (s: String)
    ensures
        s@ == type_text(*t),
{
    let mut s = String::new();
    append_type(&mut s, t);
    proof {
        assert(Seq::<char>::empty() + type_text(*t) =~= type_text(*t));
    }
    s
}

} // verus!
