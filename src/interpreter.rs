use vstd::prelude::*;

verus! {

/// What happened when a candidate command was run with `--version`.
#[derive(Clone, Copy, PartialEq, Eq, Structural, Debug)]
pub enum ProbeOutcome {
    /// The command ran.
    Ran,
    /// The system reported that no such command exists.
    NotFound,
    /// The command was located but running it failed for another reason.
    OtherError,
}

/// The next thing to do while looking for an interpreter.
#[derive(Debug)]
pub enum LocateStep {
    /// Run this command with `--version` and report the outcome.
    Probe(String),
    /// This command is the interpreter to use.
    Located(String),
    /// Every candidate was reported missing.
    Missing,
}

/// The interpreter commands to try, in order: the generic name, then the
/// platform launcher.
pub open spec fn candidate_names() -> Seq<Seq<char>> {
    seq!["python"@, "py"@]
}

/// Only a "not found" report disqualifies a candidate.
pub open spec fn qualifies(o: ProbeOutcome) -> bool {
    o != ProbeOutcome::NotFound
}

/// The number of probes that count: one per candidate at most.
pub open spec fn probes_counted(outcomes: Seq<ProbeOutcome>) -> int {
    if outcomes.len() < candidate_names().len() {
        outcomes.len() as int
    } else {
        candidate_names().len() as int
    }
}

pub fn interpreter_candidates() -> (r: Vec<String>)
    ensures
        r@.map_values(|s: String| s@) == candidate_names(),
{
    let r = vec![String::from_str("python"), String::from_str("py")];
    assert(r@.map_values(|s: String| s@) =~= candidate_names());
    r
}

/// Given the outcomes of probing the candidates in order so far, the first
/// candidate that qualifies; else the next one to probe; else none is left.
pub fn find_python_command(outcomes: &Vec<ProbeOutcome>) -> (r: LocateStep)
    ensures
        r matches LocateStep::Located(c) ==> exists|i: int|
            0 <= i < probes_counted(outcomes@) && qualifies(#[trigger] outcomes@[i])
                && c@ == candidate_names()[i]
                && forall|j: int| 0 <= j < i ==> !qualifies(#[trigger] outcomes@[j]),
        r is Located <==> exists|i: int|
            0 <= i < probes_counted(outcomes@) && qualifies(#[trigger] outcomes@[i]),
        r matches LocateStep::Probe(c) ==> outcomes@.len() < candidate_names().len()
            && c@ == candidate_names()[outcomes@.len() as int],
        r is Missing <==> probes_counted(outcomes@) == candidate_names().len()
            && forall|i: int| 0 <= i < probes_counted(outcomes@) ==> !qualifies(#[trigger] outcomes@[i]),
{
    let names = interpreter_candidates();
    let n = names.len();
    let mut i: usize = 0;
    while i < n && i < outcomes.len()
        invariant
            names@.map_values(|s: String| s@) == candidate_names(),
            n == names@.len(),
            i <= n,
            i <= outcomes@.len(),
            forall|j: int| 0 <= j < i ==> !qualifies(#[trigger] outcomes@[j]),
        decreases n - i,
    {
        assert(names@[i as int]@ == candidate_names()[i as int]);
        if outcomes[i] != ProbeOutcome::NotFound {
            return LocateStep::Located(names[i].clone());
        }
        i = i + 1;
    }
    if i < n {
        assert(names@[i as int]@ == candidate_names()[i as int]);
        LocateStep::Probe(names[i].clone())
    } else {
        LocateStep::Missing
    }
}

} // verus!
