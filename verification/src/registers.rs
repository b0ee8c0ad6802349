use vstd::prelude::*;

use crate::errors::TricoreTargetError;

verus! {

/// The registers of the fixed window, in the order they are read from the
/// hardware's register group.
#[derive(Debug, Clone, Copy, PartialEq, Eq, Structural)]
pub enum RegisterName {
    A10,
    A11,
    A12,
    A13,
    A14,
    A15,
    D8,
    D9,
    D10,
    D11,
    D12,
    D13,
    D14,
    D15,
    Pc,
    Pcxi,
    Psw,
}

/// The number of registers in the window.
pub const WINDOW_LEN: usize = 17;

/// The fixed, named subset of architectural registers read as one batch per
/// core: address registers, a subset of data registers, program counter,
/// previous context information, and status word. No partial window is ever
/// exposed.
#[derive(Debug, Clone, Copy, PartialEq, Eq, Structural)]
pub struct RegisterWindow {
    pub a10: u32,
    pub a11: u32,
    pub a12: u32,
    pub a13: u32,
    pub a14: u32,
    pub a15: u32,
    pub d8: u32,
    pub d9: u32,
    pub d10: u32,
    pub d11: u32,
    pub d12: u32,
    pub d13: u32,
    pub d14: u32,
    pub d15: u32,
    pub pc: u32,
    pub pcxi: u32,
    pub psw: u32,
}

/// The window's values laid out in window order.
pub open spec fn window_as_seq(w: RegisterWindow) -> Seq<u32> {
    seq![
        w.a10,
        w.a11,
        w.a12,
        w.a13,
        w.a14,
        w.a15,
        w.d8,
        w.d9,
        w.d10,
        w.d11,
        w.d12,
        w.d13,
        w.d14,
        w.d15,
        w.pc,
        w.pcxi,
        w.psw,
    ]
}

/// A window rebuilt from values laid out in window order.
pub open spec fn seq_to_window(s: Seq<u32>) -> RegisterWindow
    recommends
        s.len() == WINDOW_LEN,
{
    RegisterWindow {
        a10: s[0],
        a11: s[1],
        a12: s[2],
        a13: s[3],
        a14: s[4],
        a15: s[5],
        d8: s[6],
        d9: s[7],
        d10: s[8],
        d11: s[9],
        d12: s[10],
        d13: s[11],
        d14: s[12],
        d15: s[13],
        pc: s[14],
        pcxi: s[15],
        psw: s[16],
    }
}

/// The order in which the window's registers are read, one by one by name,
/// from the hardware's register group.
pub open spec fn spec_window_order() -> Seq<RegisterName> {
    seq![
        RegisterName::A10,
        RegisterName::A11,
        RegisterName::A12,
        RegisterName::A13,
        RegisterName::A14,
        RegisterName::A15,
        RegisterName::D8,
        RegisterName::D9,
        RegisterName::D10,
        RegisterName::D11,
        RegisterName::D12,
        RegisterName::D13,
        RegisterName::D14,
        RegisterName::D15,
        RegisterName::Pc,
        RegisterName::Pcxi,
        RegisterName::Psw,
    ]
}

/// The read order of the window, as an executable list.
pub fn window_order() -> (r: Vec<RegisterName>)
    ensures
        r@ == spec_window_order(),
        r@.len() == WINDOW_LEN,
{
    let mut names: Vec<RegisterName> = Vec::new();
    names.push(RegisterName::A10);
    names.push(RegisterName::A11);
    names.push(RegisterName::A12);
    names.push(RegisterName::A13);
    names.push(RegisterName::A14);
    names.push(RegisterName::A15);
    names.push(RegisterName::D8);
    names.push(RegisterName::D9);
    names.push(RegisterName::D10);
    names.push(RegisterName::D11);
    names.push(RegisterName::D12);
    names.push(RegisterName::D13);
    names.push(RegisterName::D14);
    names.push(RegisterName::D15);
    names.push(RegisterName::Pc);
    names.push(RegisterName::Pcxi);
    names.push(RegisterName::Psw);
    proof {
        assert(names@ =~= spec_window_order());
    }
    names
}

impl RegisterName {
    /// The name under which the hardware's register group lists this
    /// register.
    pub fn name_str(&self) -> (r: &'static str)
        ensures
            r@ == spec_register_name(*self),
    {
        match self {
            RegisterName::A10 => "A10",
            RegisterName::A11 => "A11",
            RegisterName::A12 => "A12",
            RegisterName::A13 => "A13",
            RegisterName::A14 => "A14",
            RegisterName::A15 => "A15",
            RegisterName::D8 => "D8",
            RegisterName::D9 => "D9",
            RegisterName::D10 => "D10",
            RegisterName::D11 => "D11",
            RegisterName::D12 => "D12",
            RegisterName::D13 => "D13",
            RegisterName::D14 => "D14",
            RegisterName::D15 => "D15",
            RegisterName::Pc => "PC",
            RegisterName::Pcxi => "PCXI",
            RegisterName::Psw => "PSW",
        }
    }
}

/// The lookup name of each register in the hardware's register group.
pub open spec fn spec_register_name(n: RegisterName) -> Seq<char> {
    match n {
        RegisterName::A10 => "A10"@,
        RegisterName::A11 => "A11"@,
        RegisterName::A12 => "A12"@,
        RegisterName::A13 => "A13"@,
        RegisterName::A14 => "A14"@,
        RegisterName::A15 => "A15"@,
        RegisterName::D8 => "D8"@,
        RegisterName::D9 => "D9"@,
        RegisterName::D10 => "D10"@,
        RegisterName::D11 => "D11"@,
        RegisterName::D12 => "D12"@,
        RegisterName::D13 => "D13"@,
        RegisterName::D14 => "D14"@,
        RegisterName::D15 => "D15"@,
        RegisterName::Pc => "PC"@,
        RegisterName::Pcxi => "PCXI"@,
        RegisterName::Psw => "PSW"@,
    }
}

/// Assemble the window from the per-register read results, in window order.
/// A missing register or a failed read makes the whole request fail with a
/// register-access failure: a partial window is never returned.
pub fn build_window(values: &Vec<Option<u32>>) -> (r: Result<RegisterWindow, TricoreTargetError>)
    ensures
        r is Ok <==> (values@.len() == WINDOW_LEN && forall|i: int|
            0 <= i < values@.len() ==> values@[i] is Some),
        r matches Ok(w) ==> forall|i: int|
            0 <= i < WINDOW_LEN ==> values@[i] == Some(window_as_seq(w)[i]),
        r is Err ==> r == Err::<RegisterWindow, TricoreTargetError>(
            TricoreTargetError::RegisterAccessFailure,
        ),
{
    if values.len() != WINDOW_LEN {
        return Err(TricoreTargetError::RegisterAccessFailure);
    }
    let mut out: Vec<u32> = Vec::new();
    let mut index: usize = 0;
    while index < WINDOW_LEN
        invariant
            index <= WINDOW_LEN,
            values@.len() == WINDOW_LEN,
            out@.len() == index,
            forall|i: int| 0 <= i < index ==> values@[i] == Some(out@[i]),
        decreases WINDOW_LEN - index,
    {
        match values[index] {
            Some(v) => out.push(v),
            None => {
                return Err(TricoreTargetError::RegisterAccessFailure);
            },
        }
        index = index + 1;
    }
    let window = RegisterWindow {
        a10: out[0],
        a11: out[1],
        a12: out[2],
        a13: out[3],
        a14: out[4],
        a15: out[5],
        d8: out[6],
        d9: out[7],
        d10: out[8],
        d11: out[9],
        d12: out[10],
        d13: out[11],
        d14: out[12],
        d15: out[13],
        pc: out[14],
        pcxi: out[15],
        psw: out[16],
    };
    proof {
        assert(window_as_seq(window) =~= out@);
    }
    Ok(window)
}

/// The window's values in window order, ready to be written back one by one
/// once the hardware write path exists.
pub fn window_values(w: &RegisterWindow) -> (r: Vec<u32>)
    ensures
        r@ == window_as_seq(*w),
{
    let mut out: Vec<u32> = Vec::new();
    out.push(w.a10);
    out.push(w.a11);
    out.push(w.a12);
    out.push(w.a13);
    out.push(w.a14);
    out.push(w.a15);
    out.push(w.d8);
    out.push(w.d9);
    out.push(w.d10);
    out.push(w.d11);
    out.push(w.d12);
    out.push(w.d13);
    out.push(w.d14);
    out.push(w.d15);
    out.push(w.pc);
    out.push(w.pcxi);
    out.push(w.psw);
    proof {
        assert(out@ =~= window_as_seq(*w));
    }
    out
}

/// The reserved write path: writing the register window is intentionally
/// not implemented yet, and it fails loudly and distinctly, never as a
/// silent no-op.
pub fn write_window(window: &RegisterWindow) -> (r: Result<(), TricoreTargetError>)
    ensures
        r == Err::<(), TricoreTargetError>(TricoreTargetError::UnsupportedOperation),
{
    let _ = window;
    Err(TricoreTargetError::UnsupportedOperation)
}

/// Taking a window apart into its ordered values and rebuilding it gives
/// back the same window, and rebuilding from any full value list then
/// taking it apart gives back the same values: the window and its ordered
/// value list carry exactly the same information, for every modeled
/// register.
pub proof fn lemma_window_roundtrip(w: RegisterWindow, s: Seq<u32>)
    ensures
        seq_to_window(window_as_seq(w)) == w,
        s.len() == WINDOW_LEN ==> window_as_seq(seq_to_window(s)) == s,
{
    assert(seq_to_window(window_as_seq(w)) == w);
    if s.len() == WINDOW_LEN {
        assert(window_as_seq(seq_to_window(s)) =~= s);
    }
}

} // verus!
