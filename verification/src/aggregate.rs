//! Aggregate-outcome computation: fold the classified devices (and the
//! retrieval failures) into one process-level exit outcome.
//!
//! The fold is deliberately order-dependent and asymmetric: a health
//! failure overwrites the code unconditionally and is never downgraded,
//! while a retrieval-error code can later be downgraded to the temperature
//! code by a device with a breach.

use vstd::prelude::*;
use crate::classify::{ClassifiedDevice, Severity};

verus! {

/// The process-level outcome of one evaluation run, ordered by the exit
/// code automation sees: normal 0, temperature exceeded 1, health error 2,
/// retrieval error 3.
#[derive(Clone, Copy, PartialEq, Eq, Structural, Debug)]
pub enum ExitOutcome {
    Normal,
    TemperatureExceeded,
    HealthError,
    RetrievalError,
}

impl ExitOutcome {
    /// The numeric exit code of this outcome.
    pub open spec fn spec_code(self) -> int {
        match self {
            ExitOutcome::Normal => 0,
            ExitOutcome::TemperatureExceeded => 1,
            ExitOutcome::HealthError => 2,
            ExitOutcome::RetrievalError => 3,
        }
    }

    /// The numeric exit code of this outcome.
    pub fn code(self) -> (c: i32)
        ensures
            c as int == self.spec_code(),
    {
        match self {
            ExitOutcome::Normal => 0,
            ExitOutcome::TemperatureExceeded => 1,
            ExitOutcome::HealthError => 2,
            ExitOutcome::RetrievalError => 3,
        }
    }
}

/// One step of the fold: a failed health check overwrites the code
/// unconditionally; otherwise a warning or critical severity sets the
/// temperature code unless the code already records a health error.
pub open spec fn spec_step(code: ExitOutcome, d: ClassifiedDevice) -> ExitOutcome {
    if d.health_failed {
        ExitOutcome::HealthError
    } else if d.severity != Severity::Normal && code != ExitOutcome::HealthError {
        ExitOutcome::TemperatureExceeded
    } else {
        code
    }
}

/// The fold over the classified devices, in device-enumeration order.
pub open spec fn spec_fold(code: ExitOutcome, devs: Seq<ClassifiedDevice>) -> ExitOutcome
    decreases devs.len(),
{
    if devs.len() == 0 {
        code
    } else {
        spec_fold(spec_step(code, devs[0]), devs.drop_first())
    }
}

/// The code before any device is considered: a retrieval failure during
/// collection starts the fold at the retrieval-error code.
pub open spec fn spec_initial(any_retrieval_failure: bool) -> ExitOutcome {
    if any_retrieval_failure {
        ExitOutcome::RetrievalError
    } else {
        ExitOutcome::Normal
    }
}

/// The aggregate outcome of one run.
pub open spec fn spec_aggregate(
    any_retrieval_failure: bool,
    devs: Seq<ClassifiedDevice>,
) -> ExitOutcome {
    spec_fold(spec_initial(any_retrieval_failure), devs)
}

/// Fold the retrieval failures and the classified devices, in order, into
/// the process outcome.
pub fn aggregate(retrieval_failures: &Vec<String>, classified: &Vec<ClassifiedDevice>) -> (r:
    ExitOutcome)
    ensures
        r == spec_aggregate(retrieval_failures@.len() > 0, classified@),
{
    let mut code = if retrieval_failures.len() > 0 {
        ExitOutcome::RetrievalError
    } else {
        ExitOutcome::Normal
    };
    let mut i: usize = 0;
    proof {
        assert(classified@.skip(0) =~= classified@);
    }
    while i < classified.len()
        invariant
            0 <= i <= classified@.len(),
            spec_fold(code, classified@.skip(i as int)) == spec_aggregate(
                retrieval_failures@.len() > 0,
                classified@,
            ),
        decreases classified@.len() - i,
    {
        let d = &classified[i];
        proof {
            assert(classified@.skip(i as int)[0] == classified@[i as int]);
            assert(classified@.skip(i as int).drop_first() =~= classified@.skip(i as int + 1));
        }
        if d.health_failed {
            code = ExitOutcome::HealthError;
        } else if !matches!(d.severity, Severity::Normal) && !matches!(
            code,
            ExitOutcome::HealthError,
        ) {
            code = ExitOutcome::TemperatureExceeded;
        }
        i = i + 1;
    }
    proof {
        assert(classified@.skip(classified@.len() as int) =~= Seq::<ClassifiedDevice>::empty());
    }
    code
}

/// Once the code records a health error, no later device changes it.
pub proof fn lemma_fold_health_sticky(devs: Seq<ClassifiedDevice>)
    ensures
        spec_fold(ExitOutcome::HealthError, devs) == ExitOutcome::HealthError,
    decreases devs.len(),
{
    if devs.len() > 0 {
        lemma_fold_health_sticky(devs.drop_first());
    }
}

/// A failed health check anywhere in the sequence decides the run: the
/// outcome is the health-error code whatever stands around it and whatever
/// code the fold started from.
pub proof fn lemma_health_wins(init: ExitOutcome, devs: Seq<ClassifiedDevice>)
    requires
        exists|i: int| 0 <= i < devs.len() && devs[i].health_failed,
    ensures
        spec_fold(init, devs) == ExitOutcome::HealthError,
    decreases devs.len(),
{
    let i = choose|i: int| 0 <= i < devs.len() && devs[i].health_failed;
    if devs[0].health_failed {
        lemma_fold_health_sticky(devs.drop_first());
    } else {
        assert(devs.drop_first()[i - 1] == devs[i]);
        lemma_health_wins(spec_step(init, devs[0]), devs.drop_first());
    }
}

/// With no failed health check anywhere, a temperature-exceeded code stays.
pub proof fn lemma_fold_temp_sticky(devs: Seq<ClassifiedDevice>)
    requires
        forall|i: int| 0 <= i < devs.len() ==> !devs[i].health_failed,
    ensures
        spec_fold(ExitOutcome::TemperatureExceeded, devs) == ExitOutcome::TemperatureExceeded,
    decreases devs.len(),
{
    if devs.len() > 0 {
        assert(forall|i: int|
            0 <= i < devs.drop_first().len() ==> devs.drop_first()[i] == devs[i + 1]);
        lemma_fold_temp_sticky(devs.drop_first());
    }
}

/// With no failed health check anywhere but some warning or critical
/// severity, the outcome is the temperature code, whatever code the fold
/// started from short of a health error — in particular a retrieval-error
/// start is downgraded.
pub proof fn lemma_temp_breach_outcome(init: ExitOutcome, devs: Seq<ClassifiedDevice>)
    requires
        init != ExitOutcome::HealthError,
        forall|i: int| 0 <= i < devs.len() ==> !devs[i].health_failed,
        exists|i: int| 0 <= i < devs.len() && devs[i].severity != Severity::Normal,
    ensures
        spec_fold(init, devs) == ExitOutcome::TemperatureExceeded,
    decreases devs.len(),
{
    let i = choose|i: int| 0 <= i < devs.len() && devs[i].severity != Severity::Normal;
    assert(forall|j: int|
        0 <= j < devs.drop_first().len() ==> devs.drop_first()[j] == devs[j + 1]);
    if devs[0].severity != Severity::Normal {
        lemma_fold_temp_sticky(devs.drop_first());
    } else {
        assert(devs.drop_first()[i - 1] == devs[i]);
        lemma_temp_breach_outcome(spec_step(init, devs[0]), devs.drop_first());
    }
}

/// Devices that neither fail health nor breach a bound leave the code as
/// it started; with no retrieval failure and no devices at all, the run is
/// normal.
pub proof fn lemma_quiet_devices(init: ExitOutcome, devs: Seq<ClassifiedDevice>)
    requires
        forall|i: int|
            0 <= i < devs.len() ==> !devs[i].health_failed && devs[i].severity == Severity::Normal,
    ensures
        spec_fold(init, devs) == init,
    decreases devs.len(),
{
    if devs.len() > 0 {
        assert(forall|i: int|
            0 <= i < devs.drop_first().len() ==> devs.drop_first()[i] == devs[i + 1]);
        lemma_quiet_devices(init, devs.drop_first());
    }
}

/// No devices discovered and no retrieval failure: the outcome is normal.
pub proof fn lemma_no_devices_normal()
    ensures
        spec_aggregate(false, Seq::<ClassifiedDevice>::empty()) == ExitOutcome::Normal,
{
}

} // verus!
