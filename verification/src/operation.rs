//! The field, curve and pairing operations that can be benchmarked, the
//! names they go by on the command line, and how often each is repeated
//! inside one timed run.

use crate::text::same_text;
use vstd::prelude::*;

verus! {

/// Repetitions inside one timed run for a name that is no operation's.
pub const DEFAULT_INTERNAL_RUNS: usize = 1000;

/// An operation on the BN254 curve and its fields.
#[derive(Debug, Clone, Copy, PartialEq, Eq, Structural)]
pub enum Operation {
    /// Addition in the base field.
    FpAdd,
    /// Multiplication in the base field.
    FpMul,
    /// Multiplication in the quadratic extension.
    Fp2Mul,
    /// Multiplication in the sextic extension.
    Fp6Mul,
    /// Multiplication in the degree-twelve extension.
    Fp12Mul,
    /// Point addition in G1.
    G1Add,
    /// Scalar multiplication in G1.
    G1Mul,
    /// Point addition in G2.
    G2Add,
    /// Scalar multiplication in G2.
    G2Mul,
    /// The pairing of a G1 point with a G2 point.
    Pairing,
}

impl Operation {
    /// The name of the operation on the command line.
    pub open spec fn label(self) -> Seq<char> {
        match self {
            Operation::FpAdd => "FpMont.add"@,
            Operation::FpMul => "FpMont.mul"@,
            Operation::Fp2Mul => "Fp2Mont.mul"@,
            Operation::Fp6Mul => "Fp6Mont.mul"@,
            Operation::Fp12Mul => "Fp12Mont.mul"@,
            Operation::G1Add => "G1.add"@,
            Operation::G1Mul => "G1.mul"@,
            Operation::G2Add => "G2.add"@,
            Operation::G2Mul => "G2.mul"@,
            Operation::Pairing => "Pairing"@,
        }
    }

    /// How often the operation is repeated inside one timed run, chosen so
    /// that a run takes about ten milliseconds.
    pub open spec fn repetitions(self) -> nat {
        match self {
            Operation::FpAdd => 400000,
            Operation::FpMul => 200000,
            Operation::Fp2Mul => 100000,
            Operation::Fp6Mul => 20000,
            Operation::Fp12Mul => 10000,
            Operation::G1Add => 40000,
            Operation::G1Mul => 2000,
            Operation::G2Add => 20000,
            Operation::G2Mul => 800,
            Operation::Pairing => 200,
        }
    }

    /// The name of the operation on the command line.
    pub fn name(self) -> (name: &'static str)
        ensures
            name@ == self.label(),
    {
        match self {
            Operation::FpAdd => "FpMont.add",
            Operation::FpMul => "FpMont.mul",
            Operation::Fp2Mul => "Fp2Mont.mul",
            Operation::Fp6Mul => "Fp6Mont.mul",
            Operation::Fp12Mul => "Fp12Mont.mul",
            Operation::G1Add => "G1.add",
            Operation::G1Mul => "G1.mul",
            Operation::G2Add => "G2.add",
            Operation::G2Mul => "G2.mul",
            Operation::Pairing => "Pairing",
        }
    }

    /// How often the operation is repeated inside one timed run.
    pub fn internal_runs(self) -> (runs: usize)
        ensures
            runs == self.repetitions(),
    {
        match self {
            Operation::FpAdd => 400000,
            Operation::FpMul => 200000,
            Operation::Fp2Mul => 100000,
            Operation::Fp6Mul => 20000,
            Operation::Fp12Mul => 10000,
            Operation::G1Add => 40000,
            Operation::G1Mul => 2000,
            Operation::G2Add => 20000,
            Operation::G2Mul => 800,
            Operation::Pairing => 200,
        }
    }

    /// The operation that goes by `name`, if there is one. Names are matched
    /// exactly, letter case included.
    pub fn from_name(name: &str) -> (operation: Option<Operation>)
        ensures
            operation == named(name@),
    {
        let operation: Option<Operation> = if same_text(name, "FpMont.add") {
            Some(Operation::FpAdd)
        } else if same_text(name, "FpMont.mul") {
            Some(Operation::FpMul)
        } else if same_text(name, "Fp2Mont.mul") {
            Some(Operation::Fp2Mul)
        } else if same_text(name, "Fp6Mont.mul") {
            Some(Operation::Fp6Mul)
        } else if same_text(name, "Fp12Mont.mul") {
            Some(Operation::Fp12Mul)
        } else if same_text(name, "G1.add") {
            Some(Operation::G1Add)
        } else if same_text(name, "G1.mul") {
            Some(Operation::G1Mul)
        } else if same_text(name, "G2.add") {
            Some(Operation::G2Add)
        } else if same_text(name, "G2.mul") {
            Some(Operation::G2Mul)
        } else if same_text(name, "Pairing") {
            Some(Operation::Pairing)
        } else {
            None
        };
        proof {
            match operation {
                Some(found) => {
                    lemma_named_finds_operation(found);
                },
                None => {
                    assert forall|other: Operation| other.label() != name@ by {
                        match other {
                            Operation::FpAdd => {},
                            Operation::FpMul => {},
                            Operation::Fp2Mul => {},
                            Operation::Fp6Mul => {},
                            Operation::Fp12Mul => {},
                            Operation::G1Add => {},
                            Operation::G1Mul => {},
                            Operation::G2Add => {},
                            Operation::G2Mul => {},
                            Operation::Pairing => {},
                        }
                    }
                },
            }
        }
        operation
    }

    /// Every operation, in the order in which the command line lists them.
    pub fn all() -> (operations: Vec<Operation>)
        ensures
            operations@ == every_operation(),
    {
        let mut operations: Vec<Operation> = Vec::new();
        operations.push(Operation::FpAdd);
        operations.push(Operation::FpMul);
        operations.push(Operation::Fp2Mul);
        operations.push(Operation::Fp6Mul);
        operations.push(Operation::Fp12Mul);
        operations.push(Operation::G1Add);
        operations.push(Operation::G1Mul);
        operations.push(Operation::G2Add);
        operations.push(Operation::G2Mul);
        operations.push(Operation::Pairing);
        operations
    }
}

/// Every operation, in the order in which the command line lists them.
pub open spec fn every_operation() -> Seq<Operation> {
    seq![
        Operation::FpAdd,
        Operation::FpMul,
        Operation::Fp2Mul,
        Operation::Fp6Mul,
        Operation::Fp12Mul,
        Operation::G1Add,
        Operation::G1Mul,
        Operation::G2Add,
        Operation::G2Mul,
        Operation::Pairing,
    ]
}

/// The operation whose command-line name is `name`, if there is one.
pub open spec fn named(name: Seq<char>) -> Option<Operation> {
    if exists|operation: Operation| operation.label() == name {
        Some(choose|operation: Operation| operation.label() == name)
    } else {
        None
    }
}

/// How often the operation named `name` is repeated inside one timed run;
/// [`DEFAULT_INTERNAL_RUNS`] where `name` is no operation's.
pub open spec fn repetitions_for(name: Seq<char>) -> nat {
    match named(name) {
        Some(operation) => operation.repetitions(),
        None => DEFAULT_INTERNAL_RUNS as nat,
    }
}

/// Length of an operation's name and the letters that tell names of equal
/// length apart.
proof fn lemma_name_marks(operation: Operation)
    ensures
        operation.label().len() == match operation {
            Operation::FpAdd | Operation::FpMul => 10nat,
            Operation::Fp2Mul | Operation::Fp6Mul => 11nat,
            Operation::Fp12Mul => 12nat,
            Operation::Pairing => 7nat,
            _ => 6nat,
        },
        operation.label()[1] == match operation {
            Operation::G1Add | Operation::G1Mul => '1',
            Operation::G2Add | Operation::G2Mul => '2',
            Operation::Pairing => 'a',
            _ => 'p',
        },
        operation.label()[2] == match operation {
            Operation::FpAdd | Operation::FpMul => 'M',
            Operation::Fp2Mul => '2',
            Operation::Fp6Mul => '6',
            Operation::Fp12Mul => '1',
            Operation::Pairing => 'i',
            _ => '.',
        },
        operation.label()[3] == match operation {
            Operation::FpAdd | Operation::FpMul => 'o',
            Operation::Fp2Mul | Operation::Fp6Mul => 'M',
            Operation::Fp12Mul => '2',
            Operation::G1Add | Operation::G2Add => 'a',
            Operation::G1Mul | Operation::G2Mul => 'm',
            Operation::Pairing => 'r',
        },
        operation == Operation::FpAdd ==> operation.label()[7] == 'a',
        operation == Operation::FpMul ==> operation.label()[7] == 'm',
{
    reveal_strlit("FpMont.add");
    reveal_strlit("FpMont.mul");
    reveal_strlit("Fp2Mont.mul");
    reveal_strlit("Fp6Mont.mul");
    reveal_strlit("Fp12Mont.mul");
    reveal_strlit("G1.add");
    reveal_strlit("G1.mul");
    reveal_strlit("G2.add");
    reveal_strlit("G2.mul");
    reveal_strlit("Pairing");
}

/// No two operations share a name.
pub proof fn lemma_names_are_distinct(a: Operation, b: Operation)
    requires
        a.label() == b.label(),
    ensures
        a == b,
{
    lemma_name_marks(a);
    lemma_name_marks(b);
}

/// Looking an operation up by its own name finds that operation.
pub proof fn lemma_named_finds_operation(operation: Operation)
    ensures
        named(operation.label()) == Some(operation),
{
    let found = choose|other: Operation| other.label() == operation.label();
    lemma_names_are_distinct(found, operation);
}

/// Every operation is listed exactly once.
pub proof fn lemma_every_operation_is_listed(operation: Operation)
    ensures
        every_operation().contains(operation),
        every_operation().no_duplicates(),
{
}

/// How often the operation named `name` is repeated inside one timed run;
/// [`DEFAULT_INTERNAL_RUNS`] where `name` is no operation's.
pub fn internal_runs_for(name: &str) -> (runs: usize)
    ensures
        runs == repetitions_for(name@),
{
    match Operation::from_name(name) {
        Some(operation) => operation.internal_runs(),
        None => DEFAULT_INTERNAL_RUNS,
    }
}

} // verus!
