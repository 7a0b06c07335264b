//! The build-time clock value, carrying the same instant-with-offset
//! model as the commit-time values.

use vstd::prelude::*;

use crate::civil::days_before_year;
use crate::date_time::{
    epoch_secs, from_timestamp_offset, human_chars, rfc2822_chars, rfc3339_chars, DateTime,
    OffsetDateTime,
};
use crate::err::SdResult;
use crate::fact::{env_val, EnvSnapshot};
use crate::date_time::{now_date_time, source_epoch_ok};

verus! {

/// The moment a build runs, in the local offset when it can be read.
#[derive(Debug, Clone, Copy)]
pub enum BuildTime {
    Local(OffsetDateTime),
    Utc(OffsetDateTime),
}

impl BuildTime {
    /// The instant-with-offset under either marker.
    pub open spec fn odt_spec(self) -> OffsetDateTime {
        match self {
            BuildTime::Local(o) => o,
            BuildTime::Utc(o) => o,
        }
    }

    /// Well-formed: the inner value is, and a UTC-marked value carries a
    /// zero offset.
    pub open spec fn wf(self) -> bool {
        &&& self.odt_spec().wf()
        &&& self matches BuildTime::Utc(o) ==> o.offset_seconds == 0
    }

    /// The instant-with-offset under either marker.
    pub fn odt(&self) -> (r: OffsetDateTime)
        ensures
            r == self.odt_spec(),
    {
        match self {
            BuildTime::Local(o) => *o,
            BuildTime::Utc(o) => *o,
        }
    }

    /// The current time in the local time zone.
    pub fn local_now() -> (r: SdResult<Self>)
        ensures
            r matches Ok(t) ==> t.wf(),
    {
        match DateTime::local_now() {
            Ok(dt) => Ok(BuildTime::Local(dt.odt())),
            Err(e) => Err(e),
        }
    }

    /// Interpret a Unix timestamp as a UTC build time. The timestamp
    /// must fall into the supported calendar range.
    pub fn timestamp_2_utc(time_stamp: i64) -> (r: Self)
        requires
            0 <= time_stamp + epoch_secs() < days_before_year(10000) * 86400,
        ensures
            r.wf(),
            r matches BuildTime::Utc(o) && o.unix == time_stamp && o.offset_seconds == 0,
    {
        match from_timestamp_offset(time_stamp, 0) {
            Ok(o) => BuildTime::Utc(o),
            Err(_) => {
                proof {
                    assert(false);
                }
                BuildTime::Utc(
                    OffsetDateTime {
                        year: 1970,
                        month: 1,
                        day: 1,
                        hour: 0,
                        minute: 0,
                        second: 0,
                        offset_seconds: 0,
                        unix: 0,
                    },
                )
            },
        }
    }

    /// Render in the internet-mail format.
    pub fn to_rfc2822(&self) -> (r: String)
        requires
            self.wf(),
        ensures
            r@ == rfc2822_chars(self.odt_spec()),
    {
        let o = self.odt();
        o.to_rfc2822()
    }

    /// Render in the extended format.
    pub fn to_rfc3339(&self) -> (r: String)
        requires
            self.wf(),
        ensures
            r@ == rfc3339_chars(self.odt_spec()),
    {
        let o = self.odt();
        o.to_rfc3339()
    }

    /// Render in the human format.
    pub fn human_format(&self) -> (r: String)
        requires
            self.wf(),
        ensures
            r@ == human_chars(self.odt_spec()),
    {
        let o = self.odt();
        o.human_format()
    }
}

/// The build time: the reproducible-build variable when the snapshot
/// carries it, otherwise the current time.
pub fn now_data_time(env: &EnvSnapshot) -> (r: BuildTime)
    requires
        source_epoch_ok(env@),
    ensures
        r.wf(),
        match env_val(env@, "SOURCE_DATE_EPOCH"@) {
            Some(v) => r matches BuildTime::Utc(o) && Some(o.unix as int)
                == crate::strutil::spec_parse_i64(v),
            None => true,
        },
{
    match now_date_time(env) {
        DateTime::Local(o) => BuildTime::Local(o),
        DateTime::Utc(o) => BuildTime::Utc(o),
    }
}

} // verus!
