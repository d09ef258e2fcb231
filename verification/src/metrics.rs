//! The labels under which consumed messages are counted.
use vstd::prelude::*;

use crate::text::copy_str;

verus! {

/// Where a consumed message went.
#[derive(Clone, Copy, Debug, PartialEq, Eq, Structural)]
pub enum ConsumedMessageDestinations {
    KAFKA,
    DATABASE,
    DROPPED,
}

/// Whether handling a consumed message succeeded.
#[derive(Clone, Copy, Debug, PartialEq, Eq, Structural)]
pub enum Status {
    SUCCESS,
    ERROR,
}

pub open spec fn destination_label_spec(d: ConsumedMessageDestinations) -> Seq<char> {
    match d {
        ConsumedMessageDestinations::DATABASE => "database"@,
        ConsumedMessageDestinations::KAFKA => "kafka"@,
        ConsumedMessageDestinations::DROPPED => "dropped"@,
    }
}

pub open spec fn status_label_spec(s: Status) -> Seq<char> {
    match s {
        Status::ERROR => "error"@,
        Status::SUCCESS => "success"@,
    }
}

/// The `destination` label of the consume metrics.
pub fn destination_label(d: &ConsumedMessageDestinations) -> (res: String)
    ensures
        res@ == destination_label_spec(*d),
{
    match d {
        ConsumedMessageDestinations::DATABASE => copy_str("database"),
        ConsumedMessageDestinations::KAFKA => copy_str("kafka"),
        ConsumedMessageDestinations::DROPPED => copy_str("dropped"),
    }
}

/// The `status` label of the consume metrics.
pub fn status_label(s: &Status) -> (res: String)
    ensures
        res@ == status_label_spec(*s),
{
    match s {
        Status::ERROR => copy_str("error"),
        Status::SUCCESS => copy_str("success"),
    }
}

} // verus!
