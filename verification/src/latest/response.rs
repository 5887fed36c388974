//! The response with the latest rates, and its decoding.

use vstd::prelude::*;
use vstd::string::StringSliceAdditionalSpecFns;
use vstd::utf8::encode_utf8;

use crate::currency::{code_of, parse_spec, CurrencyCode};
use crate::error::Error;
use crate::json::{
    json_members, json_string, member, member_spec, members_view, read_members, read_string, Members,
};
use crate::rate_limit::{Header, RateLimitData, RateLimitIgnore};
use crate::rates::Rates;
use crate::scientific::{reads_as, FromScientific};

verus! {

/// What a response of the `latest` endpoint says beside the rates.
#[derive(Debug)]
pub struct Metadata<DateTime, RateLimit = RateLimitIgnore> {
    /// When the rates were last updated.
    pub last_updated_at: DateTime,
    /// Rate-limit data.
    pub rate_limit: RateLimit,
}

/// A response as it came: status, headers and body.
#[derive(Debug)]
pub struct RawResponse {
    /// The HTTP status.
    pub status: u16,
    /// The headers, in the order of the response.
    pub headers: Vec<Header>,
    /// The body.
    pub body: Vec<u8>,
}

/// The body of a response, taken apart: the text of the time of the last
/// update, and each currency's name with the text of its rate.
#[derive(Debug)]
pub struct Payload {
    /// The time of the last update, as the body gives it.
    pub last_updated_at: String,
    /// Each currency's name with the text of its rate.
    pub entries: Members,
}

/// Whether `status` says that the request was served.
pub open spec fn is_success(status: u16) -> bool {
    200 <= status && status <= 299
}

/// What `status` alone decides: 429 is the rate limit, any other status
/// outside 200 to 299 is a failure of the exchange.
pub open spec fn status_spec(status: u16) -> Result<(), Error> {
    if status == 429 {
        Err(Error::RateLimitError)
    } else if !is_success(status) {
        Err(Error::HttpError(status))
    } else {
        Ok(())
    }
}

/// The members of the JSON object that the text `raw` holds.
pub open spec fn object_of(raw: Seq<char>) -> Option<Seq<(Seq<char>, Seq<char>)>> {
    json_members(encode_utf8(raw))
}

/// The text of the member `value` of the JSON object that `raw` holds.
pub open spec fn value_text(raw: Seq<char>) -> Option<Seq<char>> {
    match object_of(raw) {
        Some(members) => member_spec(members, "value"@),
        None => None,
    }
}

/// The time of the last update in the JSON object `meta`.
pub open spec fn timestamp_text(meta: Seq<char>) -> Option<Seq<char>> {
    match object_of(meta) {
        Some(members) => match member_spec(members, "last_updated_at"@) {
            Some(raw) => json_string(encode_utf8(raw)),
            None => None,
        },
        None => None,
    }
}

/// Each currency of `data` with the text of its rate, where every one of
/// them has a rate.
pub open spec fn entries_spec(data: Seq<(Seq<char>, Seq<char>)>) -> Option<Seq<(Seq<char>, Seq<char>)>> {
    if forall|i: int| 0 <= i < data.len() ==> value_text((#[trigger] data[i]).1) is Some {
        Some(Seq::new(data.len(), |i: int| (data[i].0, value_text(data[i].1).unwrap())))
    } else {
        None
    }
}

/// What the body of a response holds: the time of the last update and the
/// currencies with the texts of their rates; nothing where a part is
/// missing or is not what it should be.
pub open spec fn payload_spec(body: Seq<u8>) -> Option<(Seq<char>, Seq<(Seq<char>, Seq<char>)>)> {
    match json_members(body) {
        Some(top) => match (member_spec(top, "meta"@), member_spec(top, "data"@)) {
            (Some(meta), Some(data)) => match (timestamp_text(meta), object_of(data)) {
                (Some(time), Some(members)) => match entries_spec(members) {
                    Some(entries) => Some((time, entries)),
                    None => None,
                },
                _ => None,
            },
            _ => None,
        },
        None => None,
    }
}

/// Whether a table that was `before` may be `after` once the entries of a
/// body went into it, one after the other, with `result` for the way that
/// ended: with all of them in the table (`Ok(true)`), at the first that
/// found the table full (`Ok(false)`), or at the first that is no currency
/// with a rate (an error). An entry is read before the table is asked for
/// room, and the entries behind the one that ended it are not read at all.
pub open spec fn filled<RATE: FromScientific>(
    before: Seq<(CurrencyCode, RATE)>,
    capacity: nat,
    entries: Seq<(Seq<char>, Seq<char>)>,
    after: Seq<(CurrencyCode, RATE)>,
    result: Result<bool, Error>,
) -> bool
    decreases entries.len(),
{
    if entries.len() == 0 {
        after == before && result == Ok::<bool, Error>(true)
    } else {
        match parse_spec(encode_utf8(entries[0].0)) {
            Err(_) => after == before && result == Err::<bool, Error>(Error::ResponseParseError),
            Ok(text) => exists|parsed: Result<RATE, RATE::Error>|
                #[trigger] reads_as::<RATE>(entries[0].1, parsed) && match parsed {
                    Err(_) => after == before && result == Err::<bool, Error>(
                        Error::ResponseParseError,
                    ),
                    Ok(rate) => if before.len() >= capacity {
                        after == before && result == Ok::<bool, Error>(false)
                    } else {
                        filled(
                            before.push((code_of(text), rate)),
                            capacity,
                            entries.drop_first(),
                            after,
                            result,
                        )
                    },
                },
        }
    }
}

/// Whether a table that was `before` may be `after` once the entries of a
/// body went into it and none of those that were read was wrong.
pub open spec fn took<RATE: FromScientific>(
    before: Seq<(CurrencyCode, RATE)>,
    capacity: nat,
    entries: Seq<(Seq<char>, Seq<char>)>,
    after: Seq<(CurrencyCode, RATE)>,
) -> bool {
    exists|all: bool| #[trigger] filled(before, capacity, entries, after, Ok::<bool, Error>(all))
}

/// Whether an entry of a body is a currency with a rate, whatever the rate
/// type answers: its name is a currency code, and the rate type reads the
/// text of its rate and never refuses it.
pub open spec fn is_rate<RATE: FromScientific>(entry: (Seq<char>, Seq<char>)) -> bool {
    &&& parse_spec(encode_utf8(entry.0)) is Ok
    &&& forall|parsed: Result<RATE, RATE::Error>| #[trigger]
        reads_as::<RATE>(entry.1, parsed) ==> parsed is Ok
}

/// [`filled`] behind its first entry, once that entry is known to name the
/// currency `code` and the rate type has made `parsed` of the text of its
/// rate.
pub open spec fn filled_behind<RATE: FromScientific>(
    before: Seq<(CurrencyCode, RATE)>,
    capacity: nat,
    entries: Seq<(Seq<char>, Seq<char>)>,
    after: Seq<(CurrencyCode, RATE)>,
    result: Result<bool, Error>,
    code: CurrencyCode,
    parsed: Result<RATE, RATE::Error>,
) -> bool {
    match parsed {
        Err(_) => after == before && result == Err::<bool, Error>(Error::ResponseParseError),
        Ok(rate) => if before.len() >= capacity {
            after == before && result == Ok::<bool, Error>(false)
        } else {
            filled(before.push((code, rate)), capacity, entries.drop_first(), after, result)
        },
    }
}

/// Where entries went into a table and the first of them names a
/// currency, the rate type made something of the text of its rate, and
/// what followed is [`filled_behind`] that.
pub proof fn lemma_filled_step<RATE: FromScientific>(
    before: Seq<(CurrencyCode, RATE)>,
    capacity: nat,
    entries: Seq<(Seq<char>, Seq<char>)>,
    after: Seq<(CurrencyCode, RATE)>,
    result: Result<bool, Error>,
) -> (parsed: Result<RATE, RATE::Error>)
    requires
        filled(before, capacity, entries, after, result),
        entries.len() > 0,
        parse_spec(encode_utf8(entries[0].0)) is Ok,
    ensures
        reads_as::<RATE>(entries[0].1, parsed),
        parse_spec(encode_utf8(entries[0].0)) matches Ok(text) && filled_behind(
            before,
            capacity,
            entries,
            after,
            result,
            code_of(text),
            parsed,
        ),
{
    let code = match parse_spec(encode_utf8(entries[0].0)) {
        Ok(text) => code_of(text),
        Err(_) => arbitrary(),
    };
    choose|parsed: Result<RATE, RATE::Error>| #[trigger]
        reads_as::<RATE>(entries[0].1, parsed) && filled_behind(
            before,
            capacity,
            entries,
            after,
            result,
            code,
            parsed,
        )
}

/// Where the entries of a body went into a table: the table kept what it
/// held and grew by no more than the entries, and never beyond its room.
/// All went in exactly when the table grew by all of them; and the table
/// is full when one found no room.
pub proof fn lemma_filled_grows<RATE: FromScientific>(
    before: Seq<(CurrencyCode, RATE)>,
    capacity: nat,
    entries: Seq<(Seq<char>, Seq<char>)>,
    after: Seq<(CurrencyCode, RATE)>,
    result: Result<bool, Error>,
)
    requires
        filled(before, capacity, entries, after, result),
    ensures
        before.len() <= after.len() <= before.len() + entries.len(),
        after.take(before.len() as int) == before,
        before.len() <= capacity ==> after.len() <= capacity,
        result is Err ==> result == Err::<bool, Error>(Error::ResponseParseError),
        result == Ok::<bool, Error>(true) ==> after.len() == before.len() + entries.len(),
        result == Ok::<bool, Error>(false) ==> after.len() >= capacity,
    decreases entries.len(),
{
    assert(before.take(before.len() as int) =~= before);
    if entries.len() > 0 {
        match parse_spec(encode_utf8(entries[0].0)) {
            Err(_) => {},
            Ok(text) => {
                let parsed = lemma_filled_step(before, capacity, entries, after, result);
                match parsed {
                    Err(_) => {},
                    Ok(rate) => {
                        if before.len() < capacity {
                            let next = before.push((code_of(text), rate));
                            lemma_filled_grows(next, capacity, entries.drop_first(), after, result);
                            assert(after.take(before.len() as int) =~= next.take(before.len() as int));
                            assert(next.take(before.len() as int) =~= before);
                        }
                    },
                }
            },
        }
    }
}

/// Entries that are all currencies with rates, and are more than the
/// table has room for, fill the table to the brim and end with the one
/// that found no room.
pub proof fn lemma_filled_truncates<RATE: FromScientific>(
    before: Seq<(CurrencyCode, RATE)>,
    capacity: nat,
    entries: Seq<(Seq<char>, Seq<char>)>,
    after: Seq<(CurrencyCode, RATE)>,
    result: Result<bool, Error>,
)
    requires
        filled(before, capacity, entries, after, result),
        forall|i: int| 0 <= i < entries.len() ==> is_rate::<RATE>(#[trigger] entries[i]),
        before.len() <= capacity,
        before.len() + entries.len() > capacity,
    ensures
        result == Ok::<bool, Error>(false),
        after.len() == capacity,
    decreases entries.len(),
{
    assert(is_rate::<RATE>(entries[0]));
    match parse_spec(encode_utf8(entries[0].0)) {
        Err(_) => {},
        Ok(text) => {
            let parsed = lemma_filled_step(before, capacity, entries, after, result);
            match parsed {
                Err(_) => {},
                Ok(rate) => {
                    if before.len() < capacity {
                        let rest = entries.drop_first();
                        assert forall|i: int| 0 <= i < rest.len() implies is_rate::<RATE>(
                            #[trigger] rest[i],
                        ) by {
                            assert(rest[i] == entries[i + 1]);
                        }
                        lemma_filled_truncates(
                            before.push((code_of(text), rate)),
                            capacity,
                            rest,
                            after,
                            result,
                        );
                    }
                },
            }
        },
    }
}

/// Entries that are all currencies with rates, and are no more than the
/// table has room for, all go in.
pub proof fn lemma_filled_completes<RATE: FromScientific>(
    before: Seq<(CurrencyCode, RATE)>,
    capacity: nat,
    entries: Seq<(Seq<char>, Seq<char>)>,
    after: Seq<(CurrencyCode, RATE)>,
    result: Result<bool, Error>,
)
    requires
        filled(before, capacity, entries, after, result),
        forall|i: int| 0 <= i < entries.len() ==> is_rate::<RATE>(#[trigger] entries[i]),
        before.len() + entries.len() <= capacity,
    ensures
        result == Ok::<bool, Error>(true),
        after.len() == before.len() + entries.len(),
    decreases entries.len(),
{
    if entries.len() > 0 {
        assert(is_rate::<RATE>(entries[0]));
        match parse_spec(encode_utf8(entries[0].0)) {
            Err(_) => {},
            Ok(text) => {
                let parsed = lemma_filled_step(before, capacity, entries, after, result);
                match parsed {
                    Err(_) => {},
                    Ok(rate) => {
                        let rest = entries.drop_first();
                        assert forall|i: int| 0 <= i < rest.len() implies is_rate::<RATE>(
                            #[trigger] rest[i],
                        ) by {
                            assert(rest[i] == entries[i + 1]);
                        }
                        lemma_filled_completes(
                            before.push((code_of(text), rate)),
                            capacity,
                            rest,
                            after,
                            result,
                        );
                    },
                }
            },
        }
    }
}

/// Whether `parse_time` may turn the text `time` into `parsed`.
pub open spec fn parses_to<DateTime, F: Fn(&str) -> Option<DateTime>>(
    parse_time: &F,
    time: Seq<char>,
    parsed: Option<DateTime>,
) -> bool {
    exists|text: &str| text@ == time && #[trigger] call_ensures(*parse_time, (text,), parsed)
}

/// Judges a response by its status alone.
pub fn check_status(status: u16) -> (r: Result<(), Error>)
    ensures
        r == status_spec(status),
{
    if status == 429 {
        Err(Error::RateLimitError)
    } else if status < 200 || status > 299 {
        Err(Error::HttpError(status))
    } else {
        Ok(())
    }
}

/// Takes from each currency's JSON object the text of its rate.
pub fn read_entries(data: &Members) -> (r: Option<Members>)
    ensures
        match r {
            Some(entries) => entries_spec(members_view(data@)) == Some(members_view(entries@)),
            None => entries_spec(members_view(data@)) is None,
        },
{
    let ghost view = members_view(data@);
    let n = data.len();
    let mut out: Members = Vec::new();
    let mut i: usize = 0;
    while i < n
        invariant
            i <= n,
            n == data@.len(),
            view == members_view(data@),
            out@.len() == i,
            forall|j: int| 0 <= j < i ==> value_text((#[trigger] view[j]).1) is Some,
            forall|j: int|
                0 <= j < i ==> (#[trigger] out@[j]).0@ == view[j].0 && out@[j].1@ == value_text(
                    view[j].1,
                ).unwrap(),
        decreases n - i,
    {
        let entry = match read_members(data[i].1.as_str().as_bytes()) {
            Some(entry) => entry,
            None => {
                assert(value_text(view[i as int].1) is None);
                return None;
            },
        };
        let value = match member(&entry, "value") {
            Some(value) => value.clone(),
            None => {
                assert(value_text(view[i as int].1) is None);
                return None;
            },
        };
        out.push((data[i].0.clone(), value));
        i += 1;
    }
    proof {
        let expected = Seq::new(view.len(), |i: int| (view[i].0, value_text(view[i].1).unwrap()));
        assert(members_view(out@) =~= expected);
    }
    Some(out)
}

/// Takes the body of a response apart.
pub fn read_payload(body: &[u8]) -> (r: Option<Payload>)
    ensures
        match r {
            Some(payload) => payload_spec(body@) == Some(
                (payload.last_updated_at@, members_view(payload.entries@)),
            ),
            None => payload_spec(body@) is None,
        },
{
    let top = read_members(body)?;
    let meta = member(&top, "meta")?;
    let data = member(&top, "data")?;
    let meta_members = read_members(meta.as_str().as_bytes())?;
    let time = member(&meta_members, "last_updated_at")?;
    let last_updated_at = read_string(time.as_str().as_bytes())?;
    let data_members = read_members(data.as_str().as_bytes())?;
    let entries = read_entries(&data_members)?;
    Some(Payload { last_updated_at, entries })
}

/// Reads the entries of a body into a table, until they end, the table is
/// full, or one of them is no currency with a rate.
///
/// Returns whether all of them went in.
pub fn fill<const N: usize, RATE: FromScientific>(rates: &mut Rates<N, RATE>, entries: &Members) -> (r:
    Result<bool, Error>)
    requires
        old(rates).wf(),
    ensures
        final(rates).wf(),
        filled::<RATE>(old(rates)@, N as nat, members_view(entries@), final(rates)@, r),
        r matches Err(e) ==> e == Error::ResponseParseError,
{
    let ghost view = members_view(entries@);
    let n = entries.len();
    let mut i: usize = 0;
    proof {
        assert(view.skip(0) =~= view);
    }
    while i < n
        invariant
            i <= n,
            n == entries@.len(),
            view == members_view(entries@),
            rates.wf(),
            forall|after: Seq<(CurrencyCode, RATE)>, result: Result<bool, Error>| #[trigger]
                filled::<RATE>(rates@, N as nat, view.skip(i as int), after, result) ==> filled::<RATE>(
                    old(rates)@,
                    N as nat,
                    view,
                    after,
                    result,
                ),
        decreases n - i,
    {
        let ghost before = rates@;
        let ghost rest = view.skip(i as int);
        proof {
            assert(rest[0] == view[i as int]);
            assert(rest.drop_first() =~= view.skip(i + 1));
        }
        let code = match CurrencyCode::parse_str(entries[i].0.as_str()) {
            Ok(code) => code,
            Err(_) => {
                assert(filled::<RATE>(
                    before,
                    N as nat,
                    rest,
                    before,
                    Err::<bool, Error>(Error::ResponseParseError),
                ));
                return Err(Error::ResponseParseError);
            },
        };
        let text = entries[i].1.as_str();
        let parsed = RATE::parse_scientific(text);
        proof {
            assert(call_ensures(RATE::parse_scientific, (text,), parsed));
            assert(reads_as::<RATE>(rest[0].1, parsed));
        }
        let rate = match parsed {
            Ok(rate) => rate,
            Err(_) => {
                assert(filled::<RATE>(
                    before,
                    N as nat,
                    rest,
                    before,
                    Err::<bool, Error>(Error::ResponseParseError),
                ));
                return Err(Error::ResponseParseError);
            },
        };
        if !rates.push(code, rate) {
            assert(filled::<RATE>(before, N as nat, rest, before, Ok::<bool, Error>(false)));
            return Ok(false);
        }
        proof {
            assert forall|after: Seq<(CurrencyCode, RATE)>, result: Result<bool, Error>| #[trigger]
                filled::<RATE>(rates@, N as nat, view.skip(i + 1), after, result) implies filled::<
                RATE,
            >(old(rates)@, N as nat, view, after, result) by {
                assert(filled::<RATE>(before, N as nat, rest, after, result));
            }
        }
        i += 1;
    }
    proof {
        assert(view.skip(n as int) =~= Seq::<(Seq<char>, Seq<char>)>::empty());
        assert(filled::<RATE>(rates@, N as nat, view.skip(n as int), rates@, Ok::<bool, Error>(true)));
    }
    Ok(true)
}

impl RawResponse {
    /// Decodes the response: reads the rates into `rates` and returns what
    /// else the response says.
    ///
    /// `parse_time` turns the text of a time into the caller's kind of time,
    /// or into nothing where the text is no time.
    ///
    /// The status is judged first, then the rate-limit headers, then the
    /// body. The table changes only once the time of the last update is
    /// read: from then on it takes the rates as [`filled`] says, also
    /// where a later entry turns out to be wrong.
    pub fn decode<const N: usize, DateTime, RATE, RateLimit, F>(
        &self,
        parse_time: &F,
        rates: &mut Rates<N, RATE>,
    ) -> (r: Result<Metadata<DateTime, RateLimit>, Error>) where
        RATE: FromScientific,
        RateLimit: RateLimitData,
        F: Fn(&str) -> Option<DateTime>,

        requires
            old(rates).wf(),
            forall|text: &str| call_requires(*parse_time, (text,)),
        ensures
            final(rates).wf(),
            self.status == 429 ==> r matches Err(Error::RateLimitError),
            !is_success(self.status) ==> r is Err && final(rates)@ == old(rates)@,
            is_success(self.status) && RateLimit::from_headers_spec(self.headers@) is None ==> (r matches Err(
                Error::RateLimitParseError,
            )) && final(rates)@ == old(rates)@,
            RateLimit::from_headers_spec(self.headers@) is Some ==> !(r matches Err(
                Error::RateLimitParseError,
            )),
            match r {
                Err(Error::RateLimitError) => self.status == 429 && final(rates)@ == old(rates)@,
                Err(Error::HttpError(status)) => {
                    &&& status == self.status
                    &&& status_spec(self.status) == Err::<(), Error>(Error::HttpError(status))
                    &&& final(rates)@ == old(rates)@
                },
                Err(Error::RateLimitParseError) => {
                    &&& is_success(self.status)
                    &&& RateLimit::from_headers_spec(self.headers@) is None
                    &&& final(rates)@ == old(rates)@
                },
                Err(Error::ResponseParseError) => {
                    &&& is_success(self.status)
                    &&& RateLimit::from_headers_spec(self.headers@) is Some
                    &&& match payload_spec(self.body@) {
                        None => final(rates)@ == old(rates)@,
                        Some((time, entries)) => {
                            ||| {
                                &&& final(rates)@ == old(rates)@
                                &&& parses_to(parse_time, time, None::<DateTime>)
                            }
                            ||| filled::<RATE>(
                                old(rates)@,
                                N as nat,
                                entries,
                                final(rates)@,
                                Err::<bool, Error>(Error::ResponseParseError),
                            )
                        },
                    }
                },
                Ok(metadata) => {
                    &&& is_success(self.status)
                    &&& RateLimit::from_headers_spec(self.headers@) == Some(metadata.rate_limit)
                    &&& payload_spec(self.body@) matches Some((time, entries))
                    &&& parses_to(parse_time, time, Some(metadata.last_updated_at))
                    &&& took::<RATE>(old(rates)@, N as nat, entries, final(rates)@)
                },
            },
    {
        match check_status(self.status) {
            Ok(()) => {},
            Err(e) => {
                return Err(e);
            },
        }
        let rate_limit = match RateLimit::from_headers(self.headers.as_slice()) {
            Some(rate_limit) => rate_limit,
            None => {
                return Err(Error::RateLimitParseError);
            },
        };
        let payload = match read_payload(self.body.as_slice()) {
            Some(payload) => payload,
            None => {
                return Err(Error::ResponseParseError);
            },
        };
        let text = payload.last_updated_at.as_str();
        let parsed = parse_time(text);
        assert(parses_to(parse_time, text@, parsed));
        let last_updated_at = match parsed {
            Some(time) => time,
            None => {
                return Err(Error::ResponseParseError);
            },
        };
        match fill(rates, &payload.entries) {
            Ok(all) => {
                assert(filled::<RATE>(
                    old(rates)@,
                    N as nat,
                    members_view(payload.entries@),
                    rates@,
                    Ok::<bool, Error>(all),
                ));
                assert(took::<RATE>(old(rates)@, N as nat, members_view(payload.entries@), rates@));
                Ok(Metadata { last_updated_at, rate_limit })
            },
            Err(e) => Err(e),
        }
    }
}

} // verus!
