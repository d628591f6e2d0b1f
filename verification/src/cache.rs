//! The cache of provider certificates, keyed by serial, with its lifetime
//! rule and the decisions of resolving a serial.

use crate::error::WeaError;
use crate::text::same_text;
use vstd::prelude::*;
use vstd::string::StringExecFns;

verus! {

/// The seconds for which a fetched certificate may be trusted: twelve hours.
pub const CERTIFICATE_TTL_SECS: u64 = 43200;

/// A certificate of the provider as it was fetched.
#[derive(Debug)]
pub struct CertificateRecord {
    /// The serial under which the provider lists the certificate.
    pub serial: String,
    /// The certificate as PEM text.
    pub pem: String,
    /// The second of Unix time at which the certificate was fetched.
    pub fetched_at: u64,
}

impl CertificateRecord {
    /// Whether the record may still be trusted at the second `now`: less than
    /// twelve hours have gone since it was fetched.
    pub open spec fn fresh_at(&self, now: u64) -> bool {
        now - self.fetched_at < CERTIFICATE_TTL_SECS
    }

    /// Tells whether the record may still be trusted at the second `now`.
    pub fn is_fresh(&self, now: u64) -> (fresh: bool)
        ensures
            fresh == self.fresh_at(now),
    {
        now < self.fetched_at || now - self.fetched_at < CERTIFICATE_TTL_SECS
    }

    /// A copy of the record.
    pub fn duplicate(&self) -> (copy: CertificateRecord)
        ensures
            copy == *self,
    {
        CertificateRecord {
            serial: self.serial.clone(),
            pem: self.pem.clone(),
            fetched_at: self.fetched_at,
        }
    }
}

/// A certificate that the provider listed, after decryption.
#[derive(Debug)]
pub struct FetchedCertificate {
    /// The serial under which the provider lists the certificate.
    pub serial: String,
    /// The certificate as PEM text.
    pub pem: String,
}

impl FetchedCertificate {
    /// The record that stands for the certificate when it was fetched at the
    /// second `now`.
    pub open spec fn record_at(&self, now: u64) -> CertificateRecord {
        CertificateRecord { serial: self.serial, pem: self.pem, fetched_at: now }
    }
}

/// Whether the provider listed a certificate for `serial`.
pub open spec fn listed(fetched: Seq<FetchedCertificate>, serial: Seq<char>) -> bool {
    exists|i: int| 0 <= i < fetched.len() && #[trigger] fetched[i].serial@ == serial
}

/// The cache after every fetched certificate was stored, one after another.
pub open spec fn stored_all(
    cache: Map<Seq<char>, CertificateRecord>,
    fetched: Seq<FetchedCertificate>,
    now: u64,
) -> Map<Seq<char>, CertificateRecord>
    decreases fetched.len(),
{
    if fetched.len() == 0 {
        cache
    } else {
        stored_all(cache, fetched.drop_last(), now).insert(
            fetched.last().serial@,
            fetched.last().record_at(now),
        )
    }
}

/// The certificates that are at hand, at most one for each serial.
pub struct CertificateCache {
    records: Vec<CertificateRecord>,
}

/// What resolving a serial asks of the caller.
pub enum Resolution {
    /// The cache holds a fresh record for the serial.
    Hit(CertificateRecord),
    /// The certificates have to be fetched from the provider.
    Fetch,
}

impl CertificateCache {
    #[verifier::type_invariant]
    spec fn unique_serials(&self) -> bool {
        forall|i: int, j: int|
            0 <= i < j < self.records.len() ==> self.records[i].serial@ != self.records[j].serial@
    }

    /// Whether the record at `i` is the one for `serial`.
    spec fn holds_at(&self, serial: Seq<char>, i: int) -> bool {
        0 <= i < self.records.len() && self.records[i].serial@ == serial
    }

    /// The cache as a mapping from serial to record.
    pub closed spec fn view(&self) -> Map<Seq<char>, CertificateRecord> {
        Map::new(
            |serial: Seq<char>| exists|i: int| self.holds_at(serial, i),
            |serial: Seq<char>| self.records[choose|i: int| self.holds_at(serial, i)],
        )
    }

    /// An empty cache.
    pub fn new() -> (cache: CertificateCache)
        ensures
            cache@ == Map::<Seq<char>, CertificateRecord>::empty(),
    {
        let cache = CertificateCache { records: Vec::new() };
        assert(cache@ =~= Map::<Seq<char>, CertificateRecord>::empty());
        cache
    }

    fn position(&self, serial: &str) -> (at: Option<usize>)
        ensures
            match at {
                Some(i) => self.holds_at(serial@, i as int),
                None => forall|i: int| !self.holds_at(serial@, i),
            },
    {
        let mut i: usize = 0;
        while i < self.records.len()
            invariant
                i <= self.records.len(),
                forall|k: int| 0 <= k < i ==> !self.holds_at(serial@, k),
            decreases self.records.len() - i,
        {
            if same_text(self.records[i].serial.as_str(), serial) {
                return Some(i);
            }
            i += 1;
        }
        None
    }

    /// Puts `record` into the cache. A record with the same serial is replaced
    /// as a whole; the records of other serials stay as they are.
    pub fn store(&mut self, record: CertificateRecord)
        ensures
            final(self)@ == old(self)@.insert(record.serial@, record),
    {
        proof {
            use_type_invariant(&*self);
        }
        let ghost before = *self;
        let at = self.position(record.serial.as_str());
        let mut records: Vec<CertificateRecord> = Vec::new();
        core::mem::swap(&mut self.records, &mut records);
        match at {
            Some(i) => {
                records[i] = record;
            },
            None => {
                records.push(record);
            },
        }
        proof {
            assert forall|i: int, j: int| 0 <= i < j < records.len() implies records[i].serial@
                != records[j].serial@ by {
                if i < before.records.len() && j < before.records.len() {
                    assert(before.holds_at(before.records[i].serial@, i));
                    assert(before.holds_at(before.records[j].serial@, j));
                } else {
                    assert(!before.holds_at(record.serial@, i));
                }
            }
        }
        let ghost placed: int = match at {
            Some(i) => i as int,
            None => before.records.len() as int,
        };
        assert(records[placed] == record);
        core::mem::swap(&mut self.records, &mut records);
        proof {
            let after = *self;
            let wanted = before@.insert(record.serial@, record);
            assert(after.holds_at(record.serial@, placed));
            assert forall|i: int| 0 <= i < before.records.len() && i != placed implies after.records[i]
                == before.records[i] by {}
            assert forall|serial: Seq<char>| after@.dom().contains(serial) <==> wanted.dom().contains(
                serial,
            ) by {
                if after@.dom().contains(serial) {
                    let i = choose|i: int| after.holds_at(serial, i);
                    if serial != record.serial@ {
                        assert(before.holds_at(serial, i));
                    }
                }
                if wanted.dom().contains(serial) {
                    if serial != record.serial@ {
                        let i = choose|i: int| before.holds_at(serial, i);
                        assert(after.holds_at(serial, i));
                    }
                }
            }
            assert forall|serial: Seq<char>| after@.dom().contains(serial) implies after@[serial]
                == wanted[serial] by {
                let i = choose|i: int| after.holds_at(serial, i);
                if serial == record.serial@ {
                    assert(i == placed);
                } else {
                    assert(before.holds_at(serial, i));
                    let k = choose|k: int| before.holds_at(serial, k);
                    assert(k == i);
                }
            }
            assert(after@ =~= wanted);
        }
    }

    /// The record for `serial` where the cache holds one that is fresh at the
    /// second `now`. A record that is twelve hours old or older counts as
    /// missing although it is present.
    pub fn lookup(&self, serial: &str, now: u64) -> (found: Option<&CertificateRecord>)
        ensures
            match found {
                Some(record) => self@.dom().contains(serial@) && *record == self@[serial@]
                    && record.fresh_at(now),
                None => !self@.dom().contains(serial@) || !self@[serial@].fresh_at(now),
            },
    {
        proof {
            use_type_invariant(self);
        }
        match self.position(serial) {
            None => None,
            Some(i) => {
                proof {
                    let k = choose|k: int| self.holds_at(serial@, k);
                    assert(self.holds_at(serial@, i as int));
                    assert(k == i);
                }
                if self.records[i].is_fresh(now) {
                    Some(&self.records[i])
                } else {
                    None
                }
            },
        }
    }

    /// Decides how `serial` is resolved at the second `now`: from the cache
    /// where it holds a fresh record, else by fetching.
    pub fn resolve(&self, serial: &str, now: u64) -> (step: Resolution)
        ensures
            match step {
                Resolution::Hit(record) => self@.dom().contains(serial@) && record == self@[serial@]
                    && record.fresh_at(now),
                Resolution::Fetch => !self@.dom().contains(serial@) || !self@[serial@].fresh_at(
                    now,
                ),
            },
    {
        match self.lookup(serial, now) {
            Some(record) => Resolution::Hit(record.duplicate()),
            None => Resolution::Fetch,
        }
    }

    /// Takes in what a fetch brought at the second `now` and answers the
    /// resolution of `serial` that asked for it. Every certificate listed is
    /// stored under its serial. No further fetch is asked for: the answer is
    /// the record of `serial`, or an error.
    ///
    /// The error kind is `EmptyCertificateSet` where nothing was listed and
    /// `CertificateNotFound` where `serial` is not among the listed ones; the
    /// records of the other serials are stored all the same.
    pub fn accept_fetched(&mut self, serial: &str, fetched: &Vec<FetchedCertificate>, now: u64) -> (r:
        Result<CertificateRecord, WeaError>)
        ensures
            final(self)@ == stored_all(old(self)@, fetched@, now),
            match r {
                Ok(record) => {
                    &&& listed(fetched@, serial@)
                    &&& final(self)@.dom().contains(serial@)
                    &&& record == final(self)@[serial@]
                    &&& record.serial@ == serial@
                    &&& record.fetched_at == now
                },
                Err(err) => if fetched.len() == 0 {
                    err.kind@ == "EmptyCertificateSet"@
                } else {
                    !listed(fetched@, serial@) && err.kind@ == "CertificateNotFound"@
                },
            },
    {
        if fetched.len() == 0 {
            return Err(
                WeaError::new("EmptyCertificateSet", String::from_str("certificates is empty")),
            );
        }
        let ghost before = self@;
        let mut found = false;
        let mut i: usize = 0;
        while i < fetched.len()
            invariant
                i <= fetched.len(),
                self@ == stored_all(before, fetched@.take(i as int), now),
                found == listed(fetched@.take(i as int), serial@),
                found ==> self@.dom().contains(serial@) && self@[serial@].fetched_at == now
                    && self@[serial@].serial@ == serial@,
            decreases fetched.len() - i,
        {
            let record = CertificateRecord {
                serial: fetched[i].serial.clone(),
                pem: fetched[i].pem.clone(),
                fetched_at: now,
            };
            proof {
                let part = fetched@.take(i + 1);
                assert(part.drop_last() =~= fetched@.take(i as int));
                assert(part.last() == fetched@[i as int]);
                assert(record == fetched@[i as int].record_at(now));
                if listed(fetched@.take(i as int), serial@) {
                    let k = choose|k: int|
                        0 <= k < i && #[trigger] fetched@.take(i as int)[k].serial@ == serial@;
                    assert(part[k].serial@ == serial@);
                }
                if listed(part, serial@) && fetched@[i as int].serial@ != serial@ {
                    let k = choose|k: int| 0 <= k < i + 1 && #[trigger] part[k].serial@ == serial@;
                    assert(fetched@.take(i as int)[k].serial@ == serial@);
                }
                if fetched@[i as int].serial@ == serial@ {
                    assert(part[i as int].serial@ == serial@);
                }
            }
            if same_text(fetched[i].serial.as_str(), serial) {
                found = true;
            }
            self.store(record);
            i += 1;
        }
        assert(fetched@.take(i as int) =~= fetched@);
        if !found {
            return Err(
                WeaError::new("CertificateNotFound", String::from_str("cert file not found")),
            );
        }
        match self.lookup(serial, now) {
            Some(record) => Ok(record.duplicate()),
            None => Err(
                WeaError::new("CertificateNotFound", String::from_str("cert file not found")),
            ),
        }
    }
}

/// A record that is twelve hours old or older is a miss: looking it up gives
/// nothing although the cache holds it.
pub proof fn lemma_stale_record_is_a_miss(record: CertificateRecord, now: u64)
    requires
        now - record.fetched_at >= CERTIFICATE_TTL_SECS,
    ensures
        !record.fresh_at(now),
{
}

} // verus!
