//! Snapshots of the program counter and registers, partly known.
use vstd::prelude::*;

verus! {

/// The program counter and registers, each either known (`Some`) or left
/// open (`None`). Two dumps are equal when they agree on every entry.
pub struct RegisterDump {
    pc: Option<u64>,
    registers: Vec<Option<u64>>,
}

impl View for RegisterDump {
    type V = (Option<u64>, Seq<Option<u64>>);

    closed spec fn view(&self) -> (Option<u64>, Seq<Option<u64>>) {
        (self.pc, self.registers@)
    }
}

impl RegisterDump {
    /// A dump with every entry open.
    pub fn uninitialized(reg_count: usize) -> (r: RegisterDump)
        ensures
            r@.0 is None,
            r@.1.len() == reg_count,
            forall|i: int| 0 <= i < reg_count ==> r@.1[i] is None,
    {
        let mut registers: Vec<Option<u64>> = Vec::new();
        let mut i: usize = 0;
        while i < reg_count
            invariant
                i <= reg_count,
                registers@.len() == i,
                forall|j: int| 0 <= j < i ==> registers@[j] is None,
            decreases reg_count - i,
        {
            registers.push(None);
            i = i + 1;
        }
        RegisterDump { pc: None, registers }
    }

    /// A dump with every entry known.
    pub fn new(pc: u64, register: &Vec<u64>) -> (r: RegisterDump)
        ensures
            r@.0 == Some(pc),
            r@.1.len() == register@.len(),
            forall|i: int| 0 <= i < register@.len() ==> r@.1[i] == Some(register@[i]),
    {
        let mut registers: Vec<Option<u64>> = Vec::new();
        let mut i: usize = 0;
        while i < register.len()
            invariant
                i <= register@.len(),
                registers@.len() == i,
                forall|j: int| 0 <= j < i ==> registers@[j] == Some(register@[j]),
            decreases register@.len() - i,
        {
            registers.push(Some(register[i]));
            i = i + 1;
        }
        RegisterDump { pc: Some(pc), registers }
    }

    /// Opens every entry that `mask` leaves open.
    pub fn apply_mask(&mut self, mask: &RegisterDump)
        requires
            old(self)@.1.len() == mask@.1.len(),
        ensures
            final(self)@.0 == if mask@.0 is None {
                None
            } else {
                old(self)@.0
            },
            final(self)@.1.len() == old(self)@.1.len(),
            forall|i: int| 0 <= i < old(self)@.1.len() ==> final(self)@.1[i] == if mask@.1[i] is None {
                None
            } else {
                old(self)@.1[i]
            },
    {
        if mask.pc.is_none() {
            self.pc = None;
        }
        let mut i: usize = 0;
        while i < mask.registers.len()
            invariant
                i <= mask@.1.len(),
                self@.1.len() == mask@.1.len(),
                self@.0 == if mask@.0 is None {
                    None
                } else {
                    old(self)@.0
                },
                forall|j: int| 0 <= j < mask@.1.len() ==> self@.1[j] == if j < i && mask@.1[j] is None {
                    None
                } else {
                    old(self)@.1[j]
                },
            decreases mask@.1.len() - i,
        {
            if mask.registers[i].is_none() {
                self.registers[i] = None;
            }
            i = i + 1;
        }
    }

    /// The program counter entry.
    pub fn pc(&self) -> (r: Option<u64>)
        ensures
            r == self@.0,
    {
        self.pc
    }

    /// The register entries, x0 first.
    pub fn registers(&self) -> (r: &Vec<Option<u64>>)
        ensures
            r@ == self@.1,
    {
        &self.registers
    }

    pub fn set_pc(&mut self, pc: Option<u64>)
        ensures
            final(self)@ == (pc, old(self)@.1),
    {
        self.pc = pc;
    }

    /// Sets register entry `i`.
    pub fn set_register(&mut self, i: usize, value: Option<u64>)
        requires
            i < old(self)@.1.len(),
        ensures
            final(self)@ == (old(self)@.0, old(self)@.1.update(i as int, value)),
    {
        self.registers[i] = value;
    }
}

impl PartialEq for RegisterDump {
    fn eq(&self, other: &RegisterDump) -> (r: bool)
        ensures
            r == (self@ == other@),
    {
        if self.pc != other.pc || self.registers.len() != other.registers.len() {
            return false;
        }
        let mut i: usize = 0;
        while i < self.registers.len()
            invariant
                i <= self@.1.len(),
                self@.1.len() == other@.1.len(),
                forall|j: int| 0 <= j < i ==> self@.1[j] == other@.1[j],
            decreases self@.1.len() - i,
        {
            if self.registers[i] != other.registers[i] {
                return false;
            }
            i = i + 1;
        }
        assert(self@.1 =~= other@.1);
        true
    }
}

impl vstd::std_specs::cmp::PartialEqSpecImpl for RegisterDump {
    open spec fn obeys_eq_spec() -> bool {
        true
    }

    open spec fn eq_spec(&self, other: &RegisterDump) -> bool {
        self@ == other@
    }
}

} // verus!
