//! The outcome of a batch: one result per input file, each independent of
//! the others, and the status of the whole run.
use crate::record::MetaError;
use vstd::prelude::*;

verus! {

/// What became of one input file.
#[derive(Clone, Debug)]
pub enum FileOutcome {
    /// The record of `input` was written to `output`.
    Written { input: String, output: String },
    /// `input` yielded no record, for the reason given.
    Failed { input: String, error: MetaError },
}

/// Why a batch did not start.
#[derive(Clone, Copy, Debug, PartialEq, Eq, Structural)]
pub enum BatchError {
    /// No input file was given.
    EmptyInput,
}

/// The number of worker threads that a batch uses unless told otherwise.
pub const DEFAULT_WORKERS: usize = 4;

/// Accepts a list of input paths; an empty list is refused before any file
/// is touched.
pub fn check_inputs(paths: &Vec<String>) -> (r: Result<(), BatchError>)
    ensures
        r is Err <==> paths@.len() == 0,
        r is Err ==> r->Err_0 == BatchError::EmptyInput,
{
    if paths.len() == 0 {
        Err(BatchError::EmptyInput)
    } else {
        Ok(())
    }
}

/// The inputs that failed, in the order of the outcomes.
pub open spec fn failed_spec(s: Seq<FileOutcome>) -> Seq<Seq<char>>
    decreases s.len(),
{
    if s.len() == 0 {
        seq![]
    } else {
        let rest = failed_spec(s.drop_last());
        match s.last() {
            FileOutcome::Failed { input, .. } => rest.push(input@),
            FileOutcome::Written { .. } => rest,
        }
    }
}

pub open spec fn texts(v: Seq<String>) -> Seq<Seq<char>> {
    v.map_values(|t: String| t@)
}

/// The input paths of the files that failed, in order.
pub fn failed_inputs(outcomes: &Vec<FileOutcome>) -> (r: Vec<String>)
    ensures
        texts(r@) == failed_spec(outcomes@),
{
    let mut r: Vec<String> = Vec::new();
    let mut i: usize = 0;
    while i < outcomes.len()
        invariant
            i <= outcomes@.len(),
            texts(r@) == failed_spec(outcomes@.take(i as int)),
        decreases outcomes@.len() - i,
    {
        assert(outcomes@.take(i + 1).drop_last() =~= outcomes@.take(i as int));
        match &outcomes[i] {
            FileOutcome::Failed { input, .. } => {
                let ghost before = r@;
                r.push(input.clone());
                assert(texts(r@) =~= texts(before).push(input@));
            },
            FileOutcome::Written { .. } => {},
        }
        i = i + 1;
    }
    assert(outcomes@.take(i as int) =~= outcomes@);
    r
}

/// The exit status of a run: 0 where every file was written, 1 otherwise.
pub fn exit_status(outcomes: &Vec<FileOutcome>) -> (r: i32)
    ensures
        r == 0 <==> failed_spec(outcomes@).len() == 0,
        r == 0 || r == 1,
{
    let failed = failed_inputs(outcomes);
    if failed.len() == 0 {
        0
    } else {
        1
    }
}

proof fn lemma_all_written(s: Seq<FileOutcome>)
    requires
        forall|i: int| 0 <= i < s.len() ==> #[trigger] s[i] is Written,
    ensures
        failed_spec(s) == Seq::<Seq<char>>::empty(),
    decreases s.len(),
{
    if s.len() > 0 {
        lemma_all_written(s.drop_last());
    }
}

/// Where file `k` alone failed, the run reports exactly that file and its
/// status is a failure, whatever the order of the others.
pub proof fn lemma_single_failure(s: Seq<FileOutcome>, k: int)
    requires
        0 <= k < s.len(),
        s[k] is Failed,
        forall|i: int| 0 <= i < s.len() && i != k ==> #[trigger] s[i] is Written,
    ensures
        failed_spec(s) == seq![s[k]->Failed_input@],
    decreases s.len(),
{
    if k == s.len() - 1 {
        lemma_all_written(s.drop_last());
    } else {
        lemma_single_failure(s.drop_last(), k);
    }
}

} // verus!
