//! The introspection layer: rendering capability sets as numeric or
//! human-readable text, to an owned buffer or to the process's standard
//! output. Read-only and side-effect-free beyond the optional output.

use std::io::Write;

use vstd::prelude::*;
use vstd::string::StringExecFns;

use crate::caps::{cap_str, spec_cap_name};
use crate::flags::{Print, Scope, Type};
use crate::state::{spec_has_cap, StagedState};
use crate::text::{hex16, spec_hex};

verus! {

/// The canonical names of the valid capability ids below `n` whose bit is
/// set in `m`, in ascending id order.
pub open spec fn spec_set_names(m: u64, n: int) -> Seq<Seq<char>>
    decreases n,
{
    if n <= 0 {
        Seq::empty()
    } else {
        spec_set_names(m, n - 1) + (if spec_has_cap(m, (n - 1) as u32) {
            seq![spec_cap_name(n - 1)]
        } else {
            Seq::<Seq<char>>::empty()
        })
    }
}

/// A list of names joined by a comma and a space.
pub open spec fn spec_join_names(l: Seq<Seq<char>>) -> Seq<char>
    decreases l.len(),
{
    if l.len() == 0 {
        Seq::empty()
    } else if l.len() == 1 {
        l[0]
    } else {
        spec_join_names(l.drop_last()) + ", "@ + l.last()
    }
}

/// The symbolic rendering of one kind mask: the canonical names of its set
/// bits, ascending, joined by ", ".
pub open spec fn spec_text_of_mask(m: u64) -> Seq<char> {
    spec_join_names(spec_set_names(m, 41))
}

/// The kind mask a text rendering reads: exactly one kind of the staged
/// state, or the empty mask for a combined or empty kind selector.
pub open spec fn spec_selected_mask(s: StagedState, t: Type) -> u64 {
    if t.bits == 1 {
        s.effective
    } else if t.bits == 2 {
        s.permitted
    } else if t.bits == 4 {
        s.inheritable
    } else if t.bits == 8 {
        s.bounding
    } else {
        0
    }
}

/// The numeric rendering of the staged state of a scope: one line per
/// selected mask, each as 16 uppercase hexadecimal digits.
pub open spec fn spec_numeric_text(s: StagedState, scope: Scope) -> Seq<char> {
    (if scope.sel_caps() {
        "effective="@ + spec_hex(s.effective, 16) + "\n"@ + "permitted="@ + spec_hex(
            s.permitted,
            16,
        ) + "\n"@ + "inheritable="@ + spec_hex(s.inheritable, 16) + "\n"@
    } else {
        Seq::<char>::empty()
    }) + (if scope.sel_bounds() {
        "bounding="@ + spec_hex(s.bounding, 16) + "\n"@
    } else {
        Seq::<char>::empty()
    })
}

/// Relies on std::io::Stdout::write_fmt (through `writeln!`): writes one
/// line of text to the process's standard output.
#[verifier::external_body]
fn emit_line(text: &str) {
    let _ = writeln!(std::io::stdout(), "{}", text);
}

proof fn lemma_join_push(l: Seq<Seq<char>>, x: Seq<char>)
    ensures
        spec_join_names(l.push(x)) == if l.len() == 0 {
            x
        } else {
            spec_join_names(l) + ", "@ + x
        },
{
    if l.len() == 0 {
        assert(l.push(x)[0] == x);
    } else {
        assert(l.push(x).drop_last() =~= l);
        assert(l.push(x).last() == x);
    }
}

fn text_of_mask(m: u64) -> (s: String)
    ensures
        s@ == spec_text_of_mask(m),
{
    let mut out = String::new();
    let mut first: bool = true;
    let mut c: u32 = 0;
    while c < 41
        invariant
            c <= 41,
            out@ == spec_join_names(spec_set_names(m, c as int)),
            first == (spec_set_names(m, c as int).len() == 0),
        decreases 41 - c,
    {
        if m & (1u64 << (c as u64)) != 0 {
            proof {
                lemma_join_push(spec_set_names(m, c as int), spec_cap_name(c as int));
                assert(spec_set_names(m, c as int + 1) =~= spec_set_names(m, c as int).push(
                    spec_cap_name(c as int),
                ));
            }
            if !first {
                out.append(", ");
            } else {
                proof {
                    assert(Seq::<char>::empty() + spec_cap_name(c as int) =~= spec_cap_name(
                        c as int,
                    ));
                }
            }
            out.append(cap_str(c));
            first = false;
        } else {
            proof {
                assert(spec_set_names(m, c as int + 1) =~= spec_set_names(m, c as int));
            }
        }
        c = c + 1;
    }
    out
}

/// Render the staged state of `set` numerically. With `Print::BUFFER` the
/// text is returned; with `Print::STDOUT` it is written to standard output
/// and nothing is returned.
pub fn print_caps_numeric(print: Print, set: Scope, state: &StagedState) -> (r: Option<String>)
    ensures
        (print is BUFFER ==> (r matches Some(t) && t@ == spec_numeric_text(*state, set))),
        (print is STDOUT ==> r is None),
{
    let mut out = String::new();
    if set.bits & 16 != 0 {
        out.append("effective=");
        let h = hex16(state.effective);
        out.append(h.as_str());
        out.append("\n");
        out.append("permitted=");
        let h = hex16(state.permitted);
        out.append(h.as_str());
        out.append("\n");
        out.append("inheritable=");
        let h = hex16(state.inheritable);
        out.append(h.as_str());
        out.append("\n");
    }
    if set.bits & 32 != 0 {
        out.append("bounding=");
        let h = hex16(state.bounding);
        out.append(h.as_str());
        out.append("\n");
    }
    proof {
        assert(out@ =~= spec_numeric_text(*state, set));
    }
    match print {
        Print::STDOUT => {
            emit_line(out.as_str());
            None
        },
        Print::BUFFER => Some(out),
    }
}

/// Render the staged state of one kind as the ", "-joined canonical names of
/// its set capabilities. With `Print::BUFFER` the text is returned; with
/// `Print::STDOUT` it is written to standard output and nothing is returned.
pub fn print_caps_text(print: Print, which: Type, state: &StagedState) -> (r: Option<String>)
    ensures
        (print is BUFFER ==> (r matches Some(t) && t@ == spec_text_of_mask(
            spec_selected_mask(*state, which),
        ))),
        (print is STDOUT ==> r is None),
{
    let m: u64 = if which.bits == 1 {
        state.effective
    } else if which.bits == 2 {
        state.permitted
    } else if which.bits == 4 {
        state.inheritable
    } else if which.bits == 8 {
        state.bounding
    } else {
        0
    };
    let out = text_of_mask(m);
    match print {
        Print::STDOUT => {
            emit_line(out.as_str());
            None
        },
        Print::BUFFER => Some(out),
    }
}

} // verus!
