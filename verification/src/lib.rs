//! Boundary layer of a differential-privacy computation framework.
//!
//! The library lets statically typed values cross a non-generic call
//! boundary: a type-erasure container over a closed set of supported
//! types ([`object`]), a structured type-descriptor registry with
//! classification sets ([`descriptor`]), verified diagnostic formatting
//! ([`render`]), and the validation/dispatch pipeline every mechanism
//! constructor follows, exemplified by the Gaussian constructor
//! ([`gaussian`]). Floating-point values cross the boundary as raw bit
//! payloads, so the container and the constructors handle them as bits.

use vstd::prelude::*;

pub mod descriptor;
pub mod error;
pub mod gaussian;
pub mod object;
pub mod render;

use vstd::string::StringExecFns;

verus! {

/// The capability-discovery document: a machine-readable listing of the
/// boundary operations, produced once and handed to binding generators.
pub fn bootstrap() -> (s: String)
    ensures
        s@ == "{\"functions\":[{\"name\":\"from_string\",\"args\":[[\"String\",\"s\"]],\"ret\":\"FfiObject\"},{\"name\":\"to_string\",\"args\":[[\"const FfiObject\",\"this\"]],\"ret\":\"String\"},{\"name\":\"data_free\",\"args\":[[\"FfiObject\",\"this\"]]},{\"name\":\"make_gaussian\",\"args\":[[\"const Domain\",\"input_domain\"],[\"const Metric\",\"input_metric\"],[\"u64\",\"scale_bits\"],[\"String\",\"MO\"]],\"ret\":\"Measurement\"}]}"@,
{
    String::from_str(
        "{\"functions\":[{\"name\":\"from_string\",\"args\":[[\"String\",\"s\"]],\"ret\":\"FfiObject\"},{\"name\":\"to_string\",\"args\":[[\"const FfiObject\",\"this\"]],\"ret\":\"String\"},{\"name\":\"data_free\",\"args\":[[\"FfiObject\",\"this\"]]},{\"name\":\"make_gaussian\",\"args\":[[\"const Domain\",\"input_domain\"],[\"const Metric\",\"input_metric\"],[\"u64\",\"scale_bits\"],[\"String\",\"MO\"]],\"ret\":\"Measurement\"}]}",
    )
}

} // verus!
