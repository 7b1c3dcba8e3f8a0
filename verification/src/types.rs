//! The small types that callers hand in and get back.
use vstd::prelude::*;
use std::sync::Arc;
use crate::driver::share;

verus! {

/// The code that a fallible setter answers with.
#[allow(non_camel_case_types)]
#[derive(Clone, Copy, Debug, PartialEq, Eq, Structural)]
pub enum CassError {
    CASS_OK,
    CASS_ERROR_LIB_BAD_PARAMS,
}

/// The answer to a request that is accepted or refused.
pub open spec fn answer(accepted: bool) -> CassError {
    if accepted {
        CassError::CASS_OK
    } else {
        CassError::CASS_ERROR_LIB_BAD_PARAMS
    }
}

/// A boolean as C callers write it: zero is false, anything else is true
/// unless a function says otherwise.
#[allow(non_camel_case_types)]
pub type cass_bool_t = u32;

/// The value that C callers write for "true".
#[allow(non_upper_case_globals)]
pub const cass_true: cass_bool_t = 1;

/// A consistency level as C callers name it.
#[allow(non_camel_case_types)]
#[derive(Clone, Copy, Debug, PartialEq, Eq, Structural)]
pub enum CassConsistency {
    CASS_CONSISTENCY_UNKNOWN,
    CASS_CONSISTENCY_ANY,
    CASS_CONSISTENCY_ONE,
    CASS_CONSISTENCY_TWO,
    CASS_CONSISTENCY_THREE,
    CASS_CONSISTENCY_QUORUM,
    CASS_CONSISTENCY_ALL,
    CASS_CONSISTENCY_LOCAL_QUORUM,
    CASS_CONSISTENCY_EACH_QUORUM,
    CASS_CONSISTENCY_SERIAL,
    CASS_CONSISTENCY_LOCAL_SERIAL,
    CASS_CONSISTENCY_LOCAL_ONE,
}

/// A consistency level that a statement can run with.
#[derive(Clone, Copy, Debug, PartialEq, Eq, Structural)]
pub enum Consistency {
    Any,
    One,
    Two,
    Three,
    Quorum,
    All,
    LocalQuorum,
    EachQuorum,
    Serial,
    LocalSerial,
    LocalOne,
}

/// A consistency level for the Paxos phase of a conditional update.
#[derive(Clone, Copy, Debug, PartialEq, Eq, Structural)]
pub enum SerialConsistency {
    Serial,
    LocalSerial,
}

impl CassConsistency {
    /// The level that the name stands for; `CASS_CONSISTENCY_UNKNOWN` stands
    /// for none.
    pub open spec fn level(self) -> Option<Consistency> {
        match self {
            CassConsistency::CASS_CONSISTENCY_UNKNOWN => None,
            CassConsistency::CASS_CONSISTENCY_ANY => Some(Consistency::Any),
            CassConsistency::CASS_CONSISTENCY_ONE => Some(Consistency::One),
            CassConsistency::CASS_CONSISTENCY_TWO => Some(Consistency::Two),
            CassConsistency::CASS_CONSISTENCY_THREE => Some(Consistency::Three),
            CassConsistency::CASS_CONSISTENCY_QUORUM => Some(Consistency::Quorum),
            CassConsistency::CASS_CONSISTENCY_ALL => Some(Consistency::All),
            CassConsistency::CASS_CONSISTENCY_LOCAL_QUORUM => Some(Consistency::LocalQuorum),
            CassConsistency::CASS_CONSISTENCY_EACH_QUORUM => Some(Consistency::EachQuorum),
            CassConsistency::CASS_CONSISTENCY_SERIAL => Some(Consistency::Serial),
            CassConsistency::CASS_CONSISTENCY_LOCAL_SERIAL => Some(Consistency::LocalSerial),
            CassConsistency::CASS_CONSISTENCY_LOCAL_ONE => Some(Consistency::LocalOne),
        }
    }

    /// The serial level that the name stands for: only the two serial names
    /// stand for one.
    pub open spec fn serial_level(self) -> Option<SerialConsistency> {
        match self {
            CassConsistency::CASS_CONSISTENCY_SERIAL => Some(SerialConsistency::Serial),
            CassConsistency::CASS_CONSISTENCY_LOCAL_SERIAL => Some(SerialConsistency::LocalSerial),
            _ => None,
        }
    }

    /// The level that the name stands for.
    pub fn to_consistency(self) -> (level: Option<Consistency>)
        ensures
            level == self.level(),
    {
        match self {
            CassConsistency::CASS_CONSISTENCY_UNKNOWN => None,
            CassConsistency::CASS_CONSISTENCY_ANY => Some(Consistency::Any),
            CassConsistency::CASS_CONSISTENCY_ONE => Some(Consistency::One),
            CassConsistency::CASS_CONSISTENCY_TWO => Some(Consistency::Two),
            CassConsistency::CASS_CONSISTENCY_THREE => Some(Consistency::Three),
            CassConsistency::CASS_CONSISTENCY_QUORUM => Some(Consistency::Quorum),
            CassConsistency::CASS_CONSISTENCY_ALL => Some(Consistency::All),
            CassConsistency::CASS_CONSISTENCY_LOCAL_QUORUM => Some(Consistency::LocalQuorum),
            CassConsistency::CASS_CONSISTENCY_EACH_QUORUM => Some(Consistency::EachQuorum),
            CassConsistency::CASS_CONSISTENCY_SERIAL => Some(Consistency::Serial),
            CassConsistency::CASS_CONSISTENCY_LOCAL_SERIAL => Some(Consistency::LocalSerial),
            CassConsistency::CASS_CONSISTENCY_LOCAL_ONE => Some(Consistency::LocalOne),
        }
    }

    /// The serial level that the name stands for.
    pub fn to_serial_consistency(self) -> (level: Option<SerialConsistency>)
        ensures
            level == self.serial_level(),
    {
        match self {
            CassConsistency::CASS_CONSISTENCY_SERIAL => Some(SerialConsistency::Serial),
            CassConsistency::CASS_CONSISTENCY_LOCAL_SERIAL => Some(SerialConsistency::LocalSerial),
            _ => None,
        }
    }
}

/// A compression algorithm as C callers name it.
#[allow(non_camel_case_types)]
#[derive(Clone, Copy, Debug, PartialEq, Eq, Structural)]
pub enum CassCompressionType {
    CASS_COMPRESSION_NONE,
    CASS_COMPRESSION_SNAPPY,
    CASS_COMPRESSION_LZ4,
}

/// A compression algorithm for the frames of a connection.
#[derive(Clone, Copy, Debug, PartialEq, Eq, Structural)]
pub enum Compression {
    Lz4,
    Snappy,
}

impl CassCompressionType {
    /// The algorithm that the name stands for.
    pub open spec fn algorithm(self) -> Option<Compression> {
        match self {
            CassCompressionType::CASS_COMPRESSION_LZ4 => Some(Compression::Lz4),
            CassCompressionType::CASS_COMPRESSION_SNAPPY => Some(Compression::Snappy),
            CassCompressionType::CASS_COMPRESSION_NONE => None,
        }
    }
}

/// One of the retry policies that the driver comes with. The object is the
/// caller's own and is shared, never copied.
#[derive(Debug)]
pub enum CassRetryPolicy {
    DefaultRetryPolicy(Arc<scylla::policies::retry::DefaultRetryPolicy>),
    FallthroughRetryPolicy(Arc<scylla::policies::retry::FallthroughRetryPolicy>),
    DowngradingConsistencyRetryPolicy(
        Arc<scylla::policies::retry::DowngradingConsistencyRetryPolicy>,
    ),
}

impl Clone for CassRetryPolicy {
    fn clone(&self) -> (res: Self)
        ensures
            res == *self,
    {
        match self {
            CassRetryPolicy::DefaultRetryPolicy(default) => CassRetryPolicy::DefaultRetryPolicy(
                share(default),
            ),
            CassRetryPolicy::FallthroughRetryPolicy(
                fallthrough,
            ) => CassRetryPolicy::FallthroughRetryPolicy(share(fallthrough)),
            CassRetryPolicy::DowngradingConsistencyRetryPolicy(
                downgrading,
            ) => CassRetryPolicy::DowngradingConsistencyRetryPolicy(share(downgrading)),
        }
    }
}

/// A UUID as C callers hold it: two numbers of 64 bits.
#[derive(Clone, Copy, Debug, PartialEq, Eq, Structural)]
pub struct CassUuid {
    /// The time and the version. The 32 low bits of the time stand lowest,
    /// then the 16 middle bits, and on top the high bits with the version.
    pub time_and_version: u64,
    /// The clock sequence and the node.
    pub clock_seq_and_node: u64,
}

impl CassUuid {
    /// The 128 bits of the UUID in the order in which its text has them: the
    /// low bits of the time, the middle bits, the high bits with the version,
    /// then the clock sequence and the node.
    pub open spec fn bits(self) -> int {
        let low = self.time_and_version as int % 0x1_0000_0000;
        let middle = self.time_and_version as int / 0x1_0000_0000 % 0x1_0000;
        let high = self.time_and_version as int / 0x1_0000_0000_0000;
        low * 0x1_0000_0000_0000_0000_0000_0000 + middle * 0x1_0000_0000_0000_0000_0000 + high
            * 0x1_0000_0000_0000_0000 + self.clock_seq_and_node
    }

    /// The 128 bits of the UUID as one number.
    pub fn to_u128(self) -> (bits: u128)
        ensures
            bits == self.bits(),
    {
        let low: u64 = self.time_and_version % 0x1_0000_0000;
        let middle: u64 = self.time_and_version / 0x1_0000_0000 % 0x1_0000;
        let high: u64 = self.time_and_version / 0x1_0000_0000_0000;
        low as u128 * 0x1_0000_0000_0000_0000_0000_0000 + middle as u128
            * 0x1_0000_0000_0000_0000_0000 + high as u128 * 0x1_0000_0000_0000_0000
            + self.clock_seq_and_node as u128
    }
}

/// A custom payload. There is no way to make one.
pub struct CassCustomPayload;

} // verus!
