//! Triage of per-device query outcomes, per the error-handling rules: a
//! report the adapter could not parse is excluded entirely; a parsed report
//! with a non-zero tool exit status is an explicit retrieval failure,
//! counted in aggregation by identifier; only a clean report yields a
//! record for classification.

use vstd::prelude::*;
use crate::device::DeviceRecord;

verus! {

/// What querying one device produced, as the adapter hands it over.
pub enum ProbeOutcome {
    /// The tool's output could not be parsed; the device is excluded and
    /// contributes nothing to the aggregate outcome.
    Malformed,
    /// A parsed report, with the tool's exit status.
    Reported { record: DeviceRecord, exit_status: i32 },
}

/// The records of the cleanly reported probes, in order.
pub open spec fn spec_accepted(probes: Seq<ProbeOutcome>) -> Seq<DeviceRecord>
    decreases probes.len(),
{
    if probes.len() == 0 {
        Seq::empty()
    } else {
        let rest = spec_accepted(probes.drop_first());
        match probes[0] {
            ProbeOutcome::Reported { record, exit_status } => if exit_status == 0 {
                seq![record] + rest
            } else {
                rest
            },
            ProbeOutcome::Malformed => rest,
        }
    }
}

/// The identifiers of the probes whose report carries a non-zero exit
/// status, in order.
pub open spec fn spec_failures(probes: Seq<ProbeOutcome>) -> Seq<String>
    decreases probes.len(),
{
    if probes.len() == 0 {
        Seq::empty()
    } else {
        let rest = spec_failures(probes.drop_first());
        match probes[0] {
            ProbeOutcome::Reported { record, exit_status } => if exit_status != 0 {
                seq![record.name] + rest
            } else {
                rest
            },
            ProbeOutcome::Malformed => rest,
        }
    }
}

/// Split the query outcomes into the records to classify and the
/// identifiers of the retrieval failures, both in enumeration order.
pub fn partition_probes(probes: Vec<ProbeOutcome>) -> (r: (Vec<DeviceRecord>, Vec<String>))
    ensures
        r.0@ == spec_accepted(probes@),
        r.1@ == spec_failures(probes@),
{
    let ghost orig = probes@;
    let mut probes = probes;
    let mut records: Vec<DeviceRecord> = Vec::new();
    let mut failures: Vec<String> = Vec::new();
    proof {
        assert(records@ + spec_accepted(probes@) =~= spec_accepted(orig));
        assert(failures@ + spec_failures(probes@) =~= spec_failures(orig));
    }
    while probes.len() > 0
        invariant
            records@ + spec_accepted(probes@) == spec_accepted(orig),
            failures@ + spec_failures(probes@) == spec_failures(orig),
        decreases probes@.len(),
    {
        let ghost before = probes@;
        let p = probes.remove(0);
        proof {
            assert(probes@ =~= before.drop_first());
        }
        match p {
            ProbeOutcome::Malformed => {},
            ProbeOutcome::Reported { record, exit_status } => {
                if exit_status == 0 {
                    let ghost recs = records@;
                    records.push(record);
                    proof {
                        assert(records@ + spec_accepted(probes@) =~= recs + (seq![record]
                            + spec_accepted(probes@)));
                    }
                } else {
                    let ghost fails = failures@;
                    failures.push(record.name);
                    proof {
                        assert(failures@ + spec_failures(probes@) =~= fails + (seq![record.name]
                            + spec_failures(probes@)));
                    }
                }
            },
        }
    }
    proof {
        assert(records@ + spec_accepted(probes@) =~= records@);
        assert(failures@ + spec_failures(probes@) =~= failures@);
    }
    (records, failures)
}

} // verus!
