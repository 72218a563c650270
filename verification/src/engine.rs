//! The evaluation engine: resolve thresholds per device class, classify
//! every record in enumeration order, and fold the outcome.

use vstd::prelude::*;
use crate::aggregate::{aggregate, spec_aggregate, ExitOutcome};
use crate::classify::{classified_matches, classify, ClassifiedDevice};
use crate::device::DeviceRecord;
use crate::temperature::Temperature;
use crate::thresholds::{resolve, spec_resolve};

verus! {

/// Classify every record against its class's resolved thresholds, in
/// order, and aggregate the outcome together with the retrieval failures.
pub fn evaluate(
    records: Vec<DeviceRecord>,
    retrieval_failures: Vec<String>,
    fahrenheit: bool,
    warn_override: Option<Temperature>,
    crit_override: Option<Temperature>,
) -> (r: (Vec<ClassifiedDevice>, ExitOutcome))
    ensures
        r.0@.len() == records@.len(),
        forall|i: int|
            0 <= i < records@.len() ==> classified_matches(
                r.0@[i],
                records@[i],
                spec_resolve(records@[i].class, fahrenheit, warn_override, crit_override),
                fahrenheit,
            ),
        r.1 == spec_aggregate(retrieval_failures@.len() > 0, r.0@),
{
    let ghost orig = records@;
    let mut records = records;
    let mut classified: Vec<ClassifiedDevice> = Vec::new();
    while records.len() > 0
        invariant
            classified@.len() + records@.len() == orig.len(),
            records@ =~= orig.skip(classified@.len() as int),
            forall|i: int|
                0 <= i < classified@.len() ==> classified_matches(
                    classified@[i],
                    orig[i],
                    spec_resolve(orig[i].class, fahrenheit, warn_override, crit_override),
                    fahrenheit,
                ),
        decreases records@.len(),
    {
        let ghost before = records@;
        let ghost done = classified@.len() as int;
        let record = records.remove(0);
        proof {
            assert(records@ =~= before.drop_first());
            assert(record == orig[done]);
            assert(records@ =~= orig.skip(done + 1));
        }
        let pair = resolve(record.class, fahrenheit, warn_override, crit_override);
        let c = classify(record, pair, fahrenheit);
        classified.push(c);
    }
    let outcome = aggregate(&retrieval_failures, &classified);
    (classified, outcome)
}

} // verus!
