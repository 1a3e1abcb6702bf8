//! Inherent data for the timestamp: the identifier-keyed payload store, the
//! producer-side proposal algorithm, and the validator-side check of a
//! submitted time against an independent local clock reading.

use vstd::prelude::*;
use vstd::bytes::{spec_u64_from_le_bytes, spec_u64_to_le_bytes, u64_from_le_bytes, u64_to_le_bytes};
use vstd::slice::slice_subrange;
use crate::clock::Module;
use crate::error::InherentError;
use crate::ids_equal;
use crate::INHERENT_IDENTIFIER;
use crate::InherentType;

verus! {

/// The largest tolerated gap, in seconds, between a validator's own clock
/// reading and a producer's submitted time.
pub const MAX_TIMESTAMP_DRIFT: u64 = 60;

/// The payload filed under the first entry carrying `id`, if any.
pub open spec fn spec_lookup(entries: Seq<(Seq<u8>, Seq<u8>)>, id: Seq<u8>) -> Option<Seq<u8>>
    decreases entries.len(),
{
    if entries.len() == 0 {
        None
    } else if entries[0].0 == id {
        Some(entries[0].1)
    } else {
        spec_lookup(entries.drop_first(), id)
    }
}

/// When no entry among the first `i` carries `id`, the lookup is decided by
/// the remaining entries.
proof fn lemma_lookup_skip(entries: Seq<(Seq<u8>, Seq<u8>)>, id: Seq<u8>, i: int)
    requires
        0 <= i <= entries.len(),
        forall|j: int| 0 <= j < i ==> entries[j].0 != id,
    ensures
        spec_lookup(entries, id) == spec_lookup(entries.skip(i), id),
    decreases i,
{
    if i > 0 {
        lemma_lookup_skip(entries.drop_first(), id, i - 1);
        assert(entries.drop_first().skip(i - 1) =~= entries.skip(i));
    } else {
        assert(entries.skip(0) =~= entries);
    }
}

/// Inherent data for a block: payloads keyed by an 8-byte identifier, each
/// identifier filed at most once.
#[derive(Clone, Debug)]
pub struct InherentData {
    entries: Vec<([u8; 8], Vec<u8>)>,
}

impl View for InherentData {
    type V = Seq<(Seq<u8>, Seq<u8>)>;

    closed spec fn view(&self) -> Seq<(Seq<u8>, Seq<u8>)> {
        Seq::new(self.entries@.len(), |i: int| (self.entries@[i].0@, self.entries@[i].1@))
    }
}

impl InherentData {
    /// An empty store.
    pub fn new() -> (r: InherentData)
        ensures
            r@ == Seq::<(Seq<u8>, Seq<u8>)>::empty(),
    {
        let r = InherentData { entries: Vec::new() };
        proof {
            assert(r@ =~= Seq::<(Seq<u8>, Seq<u8>)>::empty());
        }
        r
    }

    /// The index of the entry carrying `identifier`, if any.
    fn find(&self, identifier: &[u8; 8]) -> (r: Option<usize>)
        ensures
            r is None ==> spec_lookup(self@, identifier@) is None,
            r matches Some(i) ==> 0 <= i < self@.len() && self@[i as int].0 == identifier@
                && spec_lookup(self@, identifier@) == Some(self@[i as int].1),
    {
        let n = self.entries.len();
        let mut i: usize = 0;
        while i < n
            invariant
                0 <= i <= n,
                n == self.entries@.len(),
                self@.len() == self.entries@.len(),
                forall|j: int| 0 <= j < i ==> self@[j].0 != identifier@,
            decreases n - i,
        {
            if ids_equal(&self.entries[i].0, identifier) {
                proof {
                    lemma_lookup_skip(self@, identifier@, i as int);
                    assert(self@.skip(i as int)[0] == self@[i as int]);
                }
                return Some(i);
            }
            i = i + 1;
        }
        proof {
            lemma_lookup_skip(self@, identifier@, i as int);
            assert(self@.skip(i as int) =~= Seq::<(Seq<u8>, Seq<u8>)>::empty());
        }
        None
    }

    /// Files a raw payload under `identifier`; refused when the identifier
    /// is already taken, in which case the store is unchanged.
    pub fn put_raw(&mut self, identifier: [u8; 8], inherent: Vec<u8>) -> (r: Result<(), String>)
        ensures
            r is Ok <==> spec_lookup(old(self)@, identifier@) is None,
            r is Ok ==> final(self)@ == old(self)@.push((identifier@, inherent@)),
            r is Err ==> final(self)@ == old(self)@,
            r matches Err(m) ==> m@ == "Inherent with same identifier already exists!"@,
    {
        match self.find(&identifier) {
            Some(_) => Err("Inherent with same identifier already exists!".to_owned()),
            None => {
                let ghost pre = self@;
                self.entries.push((identifier, inherent));
                proof {
                    assert(self@ =~= pre.push((identifier@, inherent@)));
                }
                Ok(())
            },
        }
    }

    /// Files an unsigned 64-bit payload, as eight little-endian bytes,
    /// under `identifier`; refused when the identifier is already taken.
    pub fn put_data(&mut self, identifier: [u8; 8], inherent: &u64) -> (r: Result<(), String>)
        ensures
            r is Ok <==> spec_lookup(old(self)@, identifier@) is None,
            r is Ok ==> final(self)@ == old(self)@.push(
                (identifier@, spec_u64_to_le_bytes(*inherent)),
            ),
            r is Err ==> final(self)@ == old(self)@,
            r matches Err(m) ==> m@ == "Inherent with same identifier already exists!"@,
    {
        self.put_raw(identifier, u64_to_le_bytes(*inherent))
    }

    /// Reads the payload filed under `identifier` back as an unsigned
    /// 64-bit value: `Ok(None)` when the identifier is absent, an error
    /// when its payload is too short to carry one, and the value read from
    /// the payload's first eight little-endian bytes otherwise.
    pub fn get_data(&self, identifier: &[u8; 8]) -> (r: Result<Option<u64>, String>)
        ensures
            spec_lookup(self@, identifier@) is None ==> r == Ok::<Option<u64>, String>(None),
            spec_lookup(self@, identifier@) matches Some(b) ==> {
                &&& b.len() >= 8 ==> r == Ok::<Option<u64>, String>(
                    Some(spec_u64_from_le_bytes(b.subrange(0, 8))),
                )
                &&& b.len() < 8 ==> (r matches Err(m) && m@
                    == "Inherent data could not be decoded."@)
            },
    {
        match self.find(identifier) {
            None => Ok(None),
            Some(i) => {
                let payload = &self.entries[i].1;
                if payload.len() >= 8 {
                    let head = slice_subrange(payload.as_slice(), 0, 8);
                    Ok(Some(u64_from_le_bytes(head)))
                } else {
                    Err("Inherent data could not be decoded.".to_owned())
                }
            },
        }
    }
}

/// Auxiliary trait to extract timestamp inherent data.
pub trait TimestampInherentData {
    /// The entries the implementer holds, as identifier/payload pairs.
    spec fn entries(&self) -> Seq<(Seq<u8>, Seq<u8>)>;

    /// Get timestamp inherent data: the value filed under the timestamp
    /// identifier, an error naming the failure otherwise.
    fn timestamp_inherent_data(&self) -> (r: Result<InherentType, String>)
        ensures
            spec_lookup(self.entries(), INHERENT_IDENTIFIER@) is None ==> (r matches Err(m) && m@
                == "Timestamp inherent data not found"@),
            spec_lookup(self.entries(), INHERENT_IDENTIFIER@) matches Some(b) ==> {
                &&& b.len() >= 8 ==> r == Ok::<InherentType, String>(
                    spec_u64_from_le_bytes(b.subrange(0, 8)),
                )
                &&& b.len() < 8 ==> (r matches Err(m) && m@
                    == "Inherent data could not be decoded."@)
            },
    ;
}

impl TimestampInherentData for InherentData {
    open spec fn entries(&self) -> Seq<(Seq<u8>, Seq<u8>)> {
        self@
    }

    fn timestamp_inherent_data(&self) -> (r: Result<InherentType, String>) {
        match self.get_data(&INHERENT_IDENTIFIER) {
            Err(m) => Err(m),
            Ok(None) => Err("Timestamp inherent data not found".to_owned()),
            Ok(Some(v)) => Ok(v),
        }
    }
}

/// What extracting the timestamp from a block's inherent data owes: the
/// value when a well-formed payload is filed, and otherwise the message
/// telling a missing payload from a malformed one.
pub open spec fn spec_extract(entries: Seq<(Seq<u8>, Seq<u8>)>) -> Result<u64, Seq<char>> {
    match spec_lookup(entries, INHERENT_IDENTIFIER@) {
        Option::None => Err("Timestamp inherent data is not provided."@),
        Option::Some(b) => if b.len() >= 8 {
            Ok(spec_u64_from_le_bytes(b.subrange(0, 8)))
        } else {
            Err("Invalid timestamp inherent data encoding."@)
        },
    }
}

/// A result whose error is read as its character sequence.
pub open spec fn result_chars(r: Result<u64, String>) -> Result<u64, Seq<char>> {
    match r {
        Ok(v) => Ok(v),
        Err(m) => Err(m@),
    }
}

/// The timestamp filed in the given inherent data, or the error naming why
/// there is none.
pub fn extract_inherent_data(data: &InherentData) -> (r: Result<u64, String>)
    ensures
        result_chars(r) == spec_extract(data@),
{
    match data.get_data(&INHERENT_IDENTIFIER) {
        Err(_) => Err("Invalid timestamp inherent data encoding.".to_owned()),
        Ok(None) => Err("Timestamp inherent data is not provided.".to_owned()),
        Ok(Some(v)) => Ok(v),
    }
}

/// Provides the timestamp inherent for the blocks this node produces.
pub struct InherentDataProvider;

impl InherentDataProvider {
    /// The identifier under which this provider files its data.
    pub fn inherent_identifier(&self) -> (r: [u8; 8])
        ensures
            r@ == INHERENT_IDENTIFIER@,
    {
        INHERENT_IDENTIFIER
    }

    /// Files the given local clock reading under the timestamp identifier.
    /// The reading itself comes from the host wall clock, once per block,
    /// outside the deterministic state machine.
    pub fn provide_inherent_data(
        &self,
        reading: InherentType,
        inherent_data: &mut InherentData,
    ) -> (r: Result<(), String>)
        ensures
            r is Ok <==> spec_lookup(old(inherent_data)@, INHERENT_IDENTIFIER@) is None,
            r is Ok ==> final(inherent_data)@ == old(inherent_data)@.push(
                (INHERENT_IDENTIFIER@, spec_u64_to_le_bytes(reading)),
            ),
            r is Err ==> final(inherent_data)@ == old(inherent_data)@,
    {
        inherent_data.put_data(INHERENT_IDENTIFIER, &reading)
    }
}

/// The time a producer should submit, as a mathematical value: the local
/// clock reading or the earliest value consensus accepts, whichever is
/// larger.
pub open spec fn spec_propose(reading: u64, prev: u64, period: u64) -> int {
    if reading >= prev + period {
        reading as int
    } else {
        prev + period
    }
}

/// Derives the time value a block producer should submit from its local
/// clock reading and the previous agreed time: the reading, or the minimum
/// the validators will accept, whichever is larger. This guarantees forward
/// progress even when the local clock has stalled or regressed: a producer
/// can never be forced to submit a value below the minimum.
pub fn propose(reading: u64, prev: u64, period: u64) -> (r: u64)
    requires
        prev + period <= u64::MAX,
    ensures
        r as int == spec_propose(reading, prev, period),
        r >= prev + period,
        r >= reading,
{
    let minimum = prev + period;
    if reading >= minimum {
        reading
    } else {
        minimum
    }
}

/// Validates a submitted time against an independently obtained local clock
/// reading: rejected outright when it runs more than the drift bound ahead
/// of the reading, deferred (valid at `prev + period`) when it falls short
/// of the minimum, and accepted on the whole closed interval between the
/// two bounds.
pub fn validate(submitted: u64, reading: u64, prev: u64, period: u64) -> (r: Result<
    (),
    InherentError,
>)
    requires
        prev + period <= u64::MAX,
    ensures
        submitted > reading + MAX_TIMESTAMP_DRIFT ==> (r matches Err(e) && e matches
            InherentError::Other(m) && m@ == "Timestamp too far in future to accept"@),
        submitted <= reading + MAX_TIMESTAMP_DRIFT && submitted < prev + period ==> r == Err::<
            (),
            InherentError,
        >(InherentError::ValidAtTimestamp((prev + period) as u64)),
        prev + period <= submitted && submitted <= reading + MAX_TIMESTAMP_DRIFT ==> r is Ok,
    {
    let minimum = prev + period;
    // `submitted > reading + MAX_TIMESTAMP_DRIFT`, computed without
    // overflow: a sum beyond `u64::MAX` exceeds every representable value.
    let too_far = submitted > reading && submitted - reading > MAX_TIMESTAMP_DRIFT;
    if too_far {
        Err(InherentError::Other("Timestamp too far in future to accept".to_owned()))
    } else if submitted < minimum {
        Err(InherentError::ValidAtTimestamp(minimum))
    } else {
        Ok(())
    }
}

/// A call into the clock state machine; setting the time is the one
/// operation there is.
#[derive(Clone, Copy, Debug, PartialEq, Eq, Structural)]
pub enum Call {
    SetTime(u64),
}

impl Module {
    /// Builds the call a producer puts at the head of a new block: the
    /// filed clock reading lifted to the proposal rule's value. The inherent
    /// data must carry a well-formed timestamp payload.
    pub fn create_inherent(&self, data: &InherentData) -> (r: Option<Call>)
        requires
            spec_extract(data@) is Ok,
            self.now + self.block_period <= u64::MAX,
        ensures
            r == Some(
                Call::SetTime(
                    (spec_propose(spec_extract(data@)->Ok_0, self.now, self.block_period)) as u64,
                ),
            ),
    {
        match extract_inherent_data(data) {
            Ok(reading) => Some(Call::SetTime(propose(reading, self.now, self.block_period))),
            Err(_) => {
                proof {
                    assert(false);
                }
                None
            },
        }
    }

    /// Checks the submitted call of an incoming block against this node's
    /// own inherent data: a missing or malformed local payload is reported
    /// as fatal, and otherwise the submitted time is validated against the
    /// local reading.
    pub fn check_inherent(&self, call: &Call, data: &InherentData) -> (r: Result<
        (),
        InherentError,
    >)
        requires
            self.now + self.block_period <= u64::MAX,
        ensures
            spec_extract(data@) matches Err(m) ==> (r matches Err(e) && e matches
                InherentError::Other(s) && s@ == m),
            spec_extract(data@) matches Ok(reading) ==> {
                let t = call->0;
                &&& t > reading + MAX_TIMESTAMP_DRIFT ==> (r matches Err(e) && e matches
                    InherentError::Other(s) && s@ == "Timestamp too far in future to accept"@)
                &&& t <= reading + MAX_TIMESTAMP_DRIFT && t < self.now + self.block_period ==> r
                    == Err::<(), InherentError>(
                    InherentError::ValidAtTimestamp((self.now + self.block_period) as u64),
                )
                &&& self.now + self.block_period <= t && t <= reading + MAX_TIMESTAMP_DRIFT
                    ==> r is Ok
            },
    {
        let t = match call {
            Call::SetTime(t) => *t,
        };
        match extract_inherent_data(data) {
            Err(m) => Err(InherentError::Other(m)),
            Ok(reading) => validate(t, reading, self.now, self.block_period),
        }
    }
}

} // verus!
