use crate::data::{array_of, lemma_array_of_view, Buffer, Decode, DecodeError, Decoder, MaybeDecode};
use crate::engine::ParseError;
use crate::event::{EventCode, EventParameters, LE_META};
use vstd::prelude::*;

verus! {

/// The LE event inside an LE Meta Event that carries advertising reports.
pub const LE_ADVERTISING_REPORT: u8 = 0x02;

/// The most advertising data one report carries.
pub const MAX_ADVERTISING_DATA: usize = 0x1F;

/// One or more advertisements that the controller has heard. The reports
/// are kept as bytes and read one by one through [`LeAdvertisingReport::items`].
pub struct LeAdvertisingReport {
    /// How many reports the event says it carries.
    pub num_reports: u8,
    /// The bytes of the reports, one after another.
    pub data: Buffer<253>,
}

impl MaybeDecode for LeAdvertisingReport {
    /// The first byte names the LE event. Where it names this one, the
    /// next byte counts the reports and all the rest is their bytes, which
    /// must fit in 253.
    open spec fn parse_maybe(input: Seq<u8>) -> Result<Option<(Self, nat)>, DecodeError> {
        if input.len() < 1 {
            Err(DecodeError::Empty)
        } else if input[0] != LE_ADVERTISING_REPORT {
            Ok(None)
        } else if input.len() < 2 {
            Err(DecodeError::Empty)
        } else {
            match Buffer::<253>::parse(input.skip(2)) {
                Ok((data, _)) => Ok(
                    Some((LeAdvertisingReport { num_reports: input[1], data }, input.len())),
                ),
                Err(e) => Err(e),
            }
        }
    }

    fn maybe_decode<D: Decoder>(d: &mut D) -> (r: Result<Option<Self>, DecodeError>) {
        let ghost input = d.remaining();
        let subevent = u8::decode(d)?;
        if subevent != LE_ADVERTISING_REPORT {
            return Ok(None);
        }
        let num_reports = u8::decode(d)?;
        assert(d.remaining() =~= input.skip(2));
        let data = Buffer::<253>::decode(d)?;
        Ok(Some(LeAdvertisingReport { num_reports, data }))
    }
}

impl EventParameters for LeAdvertisingReport {
    open spec fn event_code() -> EventCode {
        EventCode(LE_META)
    }

    fn assigned_code() -> (r: EventCode) {
        EventCode(LE_META)
    }
}

/// One advertisement: who sent it, what kind it is, what it says and how
/// strongly it was heard.
#[derive(Debug)]
pub struct LeAdvertisingReportItem {
    pub event_type: u8,
    pub address_type: u8,
    pub address: [u8; 6],
    pub data: Buffer<0x1F>,
    pub rssi: u8,
}

/// The report at the front of `data` and the number of bytes it takes:
/// event type, address type, six bytes of address, a length of at most 31,
/// that many bytes of data, and the signal strength. `None` where `data`
/// is too short for that or the length is over 31.
pub open spec fn parse_item(data: Seq<u8>) -> Option<(LeAdvertisingReportItem, nat)> {
    if data.len() < 9 {
        None
    } else {
        let n = data[8] as int;
        if n > MAX_ADVERTISING_DATA || data.len() < 10 + n {
            None
        } else {
            Some(
                (
                    LeAdvertisingReportItem {
                        event_type: data[0],
                        address_type: data[1],
                        address: array_of::<6>(data.subrange(2, 8)),
                        data: Buffer::<0x1F>::holding(data.subrange(9, 9 + n)),
                        rssi: data[9 + n],
                    },
                    (10 + n) as nat,
                ),
            )
        }
    }
}

/// What reading `count` reports from `data` gives, one result per report
/// announced. A report that cannot be read gives an error and leaves the
/// bytes where they are, so every report after it gives an error too.
pub open spec fn reports(count: nat, data: Seq<u8>) -> Seq<Result<LeAdvertisingReportItem, ParseError>>
    decreases count,
{
    if count == 0 {
        Seq::empty()
    } else {
        match parse_item(data) {
            Some((item, n)) => seq![Ok(item)] + reports((count - 1) as nat, data.skip(n as int)),
            None => seq![Err(ParseError)] + reports((count - 1) as nat, data),
        }
    }
}

/// `reports(count, data)` has one entry for each report announced.
pub proof fn lemma_reports_len(count: nat, data: Seq<u8>)
    ensures
        reports(count, data).len() == count,
    decreases count,
{
    if count > 0 {
        match parse_item(data) {
            Some((_, n)) => lemma_reports_len((count - 1) as nat, data.skip(n as int)),
            None => lemma_reports_len((count - 1) as nat, data),
        }
    }
}

/// Once a report cannot be read, that one and every report announced after
/// it give an error: a frame that announces more reports than it holds
/// yields an error for each report that is missing.
pub proof fn lemma_reports_after_failure(count: nat, data: Seq<u8>)
    requires
        parse_item(data) is None,
    ensures
        reports(count, data) == Seq::new(
            count,
            |i: int| Err::<LeAdvertisingReportItem, ParseError>(ParseError),
        ),
    decreases count,
{
    if count > 0 {
        lemma_reports_after_failure((count - 1) as nat, data);
        lemma_reports_len((count - 1) as nat, data);
    }
    assert(reports(count, data) =~= Seq::new(
        count,
        |i: int| Err::<LeAdvertisingReportItem, ParseError>(ParseError),
    ));
}

/// A walk through the reports of an advertising event.
pub struct LeAdvertisingReportItems<'a> {
    num_left: usize,
    data: &'a [u8],
}

impl<'a> View for LeAdvertisingReportItems<'a> {
    type V = Seq<Result<LeAdvertisingReportItem, ParseError>>;

    /// The results yet to come, in order.
    closed spec fn view(&self) -> Self::V {
        reports(self.num_left as nat, self.data@)
    }
}

impl LeAdvertisingReport {
    /// Starts a walk through the reports.
    pub fn items(&self) -> (r: LeAdvertisingReportItems<'_>)
        ensures
            r@ == reports(self.num_reports as nat, self.data@),
    {
        LeAdvertisingReportItems { num_left: self.num_reports as usize, data: self.data.as_slice() }
    }
}

impl<'a> LeAdvertisingReportItems<'a> {
    /// The next result, or `None` once every announced report has had its turn.
    pub fn next(&mut self) -> (r: Option<Result<LeAdvertisingReportItem, ParseError>>)
        ensures
            match r {
                Some(result) => old(self)@.len() > 0 && result == old(self)@[0] && final(self)@
                    == old(self)@.skip(1),
                None => old(self)@.len() == 0 && final(self)@ == old(self)@,
            },
    {
        proof {
            lemma_reports_len(self.num_left as nat, self.data@);
        }
        if self.num_left == 0 {
            return None;
        }
        self.num_left = self.num_left - 1;
        let data = self.data;
        if data.len() < 9 {
            return Some(Err(ParseError));
        }
        let n = data[8] as usize;
        if n > MAX_ADVERTISING_DATA || data.len() < 10 + n {
            return Some(Err(ParseError));
        }
        let event_type = data[0];
        let address_type = data[1];
        let address = [data[2], data[3], data[4], data[5], data[6], data[7]];
        let payload = Buffer::<0x1F>::from(vstd::slice::slice_subrange(data, 9, 9 + n));
        let rssi = data[9 + n];
        self.data = vstd::slice::slice_subrange(data, 10 + n, data.len());
        proof {
            assert(address@ =~= data@.subrange(2, 8));
            lemma_array_of_view(address);
        }
        Some(Ok(LeAdvertisingReportItem { event_type, address_type, address, data: payload, rssi }))
    }
}

} // verus!
