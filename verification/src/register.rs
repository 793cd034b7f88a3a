//! The single clipboard register.

use vstd::prelude::*;

verus! {

/// How the register's text goes back into a document.
#[derive(Clone, Copy, Debug, PartialEq, Eq, Structural)]
pub enum RegisterKind {
    /// Spliced into a line.
    Charwise,
    /// Inserted as a line of its own.
    Linewise,
}

/// The register: one text, tagged by the kind of the write that filled it.
#[derive(Debug)]
pub struct Register {
    pub text: Vec<char>,
    pub kind: RegisterKind,
}

impl Register {
    /// An empty character-wise register.
    pub fn new() -> (r: Register)
        ensures
            r.text@ == Seq::<char>::empty(),
            r.kind == RegisterKind::Charwise,
    {
        Register { text: Vec::new(), kind: RegisterKind::Charwise }
    }

    /// Overwrites the register.
    pub fn store(&mut self, text: Vec<char>, kind: RegisterKind)
        ensures
            final(self).text@ == text@,
            final(self).kind == kind,
    {
        self.text = text;
        self.kind = kind;
    }

    /// Whether the register holds a whole line.
    pub fn is_linewise(&self) -> (b: bool)
        ensures
            b == (self.kind == RegisterKind::Linewise),
    {
        match self.kind {
            RegisterKind::Linewise => true,
            RegisterKind::Charwise => false,
        }
    }
}

} // verus!
