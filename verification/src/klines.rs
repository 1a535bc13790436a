//! Daily candles: the request for them, reading them out of the exchange's
//! answer, and choosing which of them to store.
use vstd::prelude::*;
use crate::common::Kline;
use crate::json::{json_document, read_json, JsonNumber, JsonValue};
use crate::text::{decimal_value, i64_to_decimal, spec_decimal};

verus! {

/// The address that asks the exchange for the daily candles of `symbol`
/// starting at the time `last_entry`.
pub open spec fn spec_klines_url(symbol: Seq<char>, last_entry: i64) -> Seq<char> {
    "https://fapi.binance.com/fapi/v1/klines?symbol="@ + symbol + "&interval=1d&startTime="@
        + spec_decimal(last_entry as int)
}

/// The address that asks the exchange for the daily candles of `symbol`
/// starting at the time `last_entry`.
pub fn klines_url(symbol: &str, last_entry: i64) -> (url: String)
    ensures
        url@ == spec_klines_url(symbol@, last_entry),
{
    let mut url = String::from_str("https://fapi.binance.com/fapi/v1/klines?symbol=");
    url.append(symbol);
    url.append("&interval=1d&startTime=");
    let start = i64_to_decimal(last_entry);
    url.append(start.as_str());
    url
}

/// The address can be read back: it is the fixed prefix, then the whole
/// symbol unchanged, then `&interval=1d&startTime=`, then digits whose value
/// is `last_entry`.
pub proof fn lemma_url_reads_back(symbol: Seq<char>, last_entry: i64)
    ensures
        spec_klines_url(symbol, last_entry).subrange(
            0,
            "https://fapi.binance.com/fapi/v1/klines?symbol="@.len() as int,
        ) == "https://fapi.binance.com/fapi/v1/klines?symbol="@,
        spec_klines_url(symbol, last_entry).subrange(
            "https://fapi.binance.com/fapi/v1/klines?symbol="@.len() as int,
            ("https://fapi.binance.com/fapi/v1/klines?symbol="@.len() + symbol.len()) as int,
        ) == symbol,
        spec_klines_url(symbol, last_entry).subrange(
            ("https://fapi.binance.com/fapi/v1/klines?symbol="@.len() + symbol.len()) as int,
            ("https://fapi.binance.com/fapi/v1/klines?symbol="@.len() + symbol.len()
                + "&interval=1d&startTime="@.len()) as int,
        ) == "&interval=1d&startTime="@,
        decimal_value(
            spec_klines_url(symbol, last_entry).skip(
                ("https://fapi.binance.com/fapi/v1/klines?symbol="@.len() + symbol.len()
                    + "&interval=1d&startTime="@.len()) as int,
            ),
        ) == last_entry,
{
    let prefix = "https://fapi.binance.com/fapi/v1/klines?symbol="@;
    let middle = "&interval=1d&startTime="@;
    let digits = spec_decimal(last_entry as int);
    let url = spec_klines_url(symbol, last_entry);
    assert(url == prefix + symbol + middle + digits);
    assert(url.subrange(0, prefix.len() as int) =~= prefix);
    let a = prefix.len() as int;
    let b = (prefix.len() + symbol.len()) as int;
    let c = (prefix.len() + symbol.len() + middle.len()) as int;
    assert(url.subrange(a, b) =~= symbol);
    assert(url.subrange(b, c) =~= middle);
    assert(url.skip(c) =~= digits);
    crate::text::lemma_decimal_round_trip(last_entry as int);
}

/// Why an answer of the exchange yields no candles.
#[derive(Debug, PartialEq, Eq)]
pub enum KlineParseError {
    /// The answer is not a JSON array.
    NotAnArray,
    /// A candle's opening time is not an integer that fits in an `i64`.
    OpenTimeNotI64,
}

/// Whether `k` has the shape of a candle: an array whose first element is a
/// number and whose next five elements are strings.
pub open spec fn kline_shaped(k: JsonValue) -> bool {
    &&& k.spec_get(0) matches Some(JsonValue::Number(_))
    &&& k.spec_get(1) matches Some(JsonValue::String(_))
    &&& k.spec_get(2) matches Some(JsonValue::String(_))
    &&& k.spec_get(3) matches Some(JsonValue::String(_))
    &&& k.spec_get(4) matches Some(JsonValue::String(_))
    &&& k.spec_get(5) matches Some(JsonValue::String(_))
}

/// The string at `index` of `k`.
pub open spec fn string_at(k: JsonValue, index: int) -> String {
    match k.spec_get(index) {
        Some(JsonValue::String(s)) => s,
        _ => vstd::pervasive::arbitrary(),
    }
}

/// The number at `index` of `k`.
pub open spec fn number_at(k: JsonValue, index: int) -> JsonNumber {
    match k.spec_get(index) {
        Some(JsonValue::Number(n)) => n,
        _ => JsonNumber::Float,
    }
}

/// Whether the opening time of a candle-shaped `k` fits in an `i64`.
pub open spec fn opentime_fits(k: JsonValue) -> bool {
    number_at(k, 0).spec_as_i64() is Some
}

/// The candle that a candle-shaped `k` stands for.
pub open spec fn kline_of(k: JsonValue) -> Kline {
    Kline {
        opentime: number_at(k, 0).spec_as_i64()->0,
        open: string_at(k, 1),
        high: string_at(k, 2),
        low: string_at(k, 3),
        close: string_at(k, 4),
        volume: string_at(k, 5),
    }
}

/// The candles of the candle-shaped elements of `items`, in order; the
/// other elements are passed over.
pub open spec fn klines_of(items: Seq<JsonValue>) -> Seq<Kline>
    decreases items.len(),
{
    if items.len() == 0 {
        Seq::empty()
    } else if kline_shaped(items.last()) {
        klines_of(items.drop_last()).push(kline_of(items.last()))
    } else {
        klines_of(items.drop_last())
    }
}

/// Whether every candle-shaped element of `items` has an opening time that
/// fits in an `i64`.
pub open spec fn opentimes_fit(items: Seq<JsonValue>) -> bool {
    forall|i: int| 0 <= i < items.len() && kline_shaped(#[trigger] items[i]) ==> opentime_fits(items[i])
}

/// A candle takes its fields from its own element of the answer: after an
/// element shaped like a candle, the candles read are those read before it,
/// then one whose opening time is the element's number and whose prices and
/// volume are the element's strings at indices 1 to 5.
pub proof fn lemma_candle_takes_own_fields(items: Seq<JsonValue>, k: JsonValue)
    requires
        kline_shaped(k),
        opentime_fits(k),
    ensures
        klines_of(items.push(k)).len() == klines_of(items).len() + 1,
        klines_of(items.push(k)).drop_last() == klines_of(items),
        k matches JsonValue::Array(a) ==> {
            &&& a@[0] matches JsonValue::Number(n) ==> klines_of(items.push(k)).last().opentime
                == n.spec_as_i64()->0
            &&& a@[1] matches JsonValue::String(s) ==> klines_of(items.push(k)).last().open == s
            &&& a@[2] matches JsonValue::String(s) ==> klines_of(items.push(k)).last().high == s
            &&& a@[3] matches JsonValue::String(s) ==> klines_of(items.push(k)).last().low == s
            &&& a@[4] matches JsonValue::String(s) ==> klines_of(items.push(k)).last().close == s
            &&& a@[5] matches JsonValue::String(s) ==> klines_of(items.push(k)).last().volume
                == s
        },
{
    assert(items.push(k).drop_last() =~= items);
    assert(items.push(k).last() == k);
}

/// Elements that do not have the shape of a candle change nothing: putting
/// one anywhere into an answer leaves the candles read out of it, and whether
/// its opening times fit, as they were.
pub proof fn lemma_non_candles_ignored(items: Seq<JsonValue>, i: int, k: JsonValue)
    requires
        0 <= i <= items.len(),
        !kline_shaped(k),
    ensures
        klines_of(items.insert(i, k)) == klines_of(items),
        opentimes_fit(items.insert(i, k)) == opentimes_fit(items),
    decreases items.len(),
{
    let longer = items.insert(i, k);
    if i == items.len() {
        assert(longer.drop_last() =~= items);
    } else {
        lemma_non_candles_ignored(items.drop_last(), i, k);
        assert(longer.drop_last() =~= items.drop_last().insert(i, k));
        assert(longer.last() == items.last());
    }
    if opentimes_fit(items) {
        assert forall|j: int| 0 <= j < longer.len() && kline_shaped(#[trigger] longer[j]) implies opentime_fits(longer[j]) by {
            if j < i {
                assert(longer[j] == items[j]);
            } else if j > i {
                assert(longer[j] == items[j - 1]);
            }
        }
    }
    if opentimes_fit(longer) {
        assert forall|j: int| 0 <= j < items.len() && kline_shaped(#[trigger] items[j]) implies opentime_fits(items[j]) by {
            if j < i {
                assert(longer[j] == items[j]);
            } else {
                assert(longer[j + 1] == items[j]);
            }
        }
    }
}

/// Whether every candle-shaped element of `doc`, where it is an array, has
/// an opening time that fits in an `i64`.
pub open spec fn doc_opentimes_fit(doc: JsonValue) -> bool {
    match doc {
        JsonValue::Array(items) => opentimes_fit(items@),
        _ => true,
    }
}

/// The outcome of reading the candles out of an answer of the exchange whose
/// opening times fit in an `i64`.
pub open spec fn spec_parse_klines(doc: JsonValue) -> Result<Seq<Kline>, KlineParseError> {
    match doc {
        JsonValue::Array(items) => Ok(klines_of(items@)),
        _ => Err(KlineParseError::NotAnArray),
    }
}

/// The outcome of reading the candles out of the text of an answer of the
/// exchange: nothing where the text is not a JSON document.
pub open spec fn spec_klines_from_text(text: Seq<char>) -> Option<Result<Seq<Kline>, KlineParseError>> {
    match json_document(text) {
        None => None,
        Some(doc) => if doc_opentimes_fit(doc) {
            Some(spec_parse_klines(doc))
        } else {
            Some(Err(KlineParseError::OpenTimeNotI64))
        },
    }
}

fn is_string_at(k: &JsonValue, index: usize) -> (b: bool)
    ensures
        b == (k.spec_get(index as int) matches Some(JsonValue::String(_))),
{
    match k.get(index) {
        Some(JsonValue::String(_)) => true,
        _ => false,
    }
}

fn is_kline_shaped(k: &JsonValue) -> (b: bool)
    ensures
        b == kline_shaped(*k),
{
    let number = match k.get(0) {
        Some(JsonValue::Number(_)) => true,
        _ => false,
    };
    number && is_string_at(k, 1) && is_string_at(k, 2) && is_string_at(k, 3) && is_string_at(k, 4)
        && is_string_at(k, 5)
}

/// Whether every candle-shaped element of `doc`, where it is an array, has
/// an opening time that fits in an `i64`; `parse_klines` needs it.
pub fn opentimes_are_i64(doc: &JsonValue) -> (b: bool)
    ensures
        b == doc_opentimes_fit(*doc),
{
    let items = match doc {
        JsonValue::Array(items) => items,
        _ => return true,
    };
    let mut i: usize = 0;
    while i < items.len()
        invariant
            *doc == JsonValue::Array(*items),
            i <= items@.len(),
            forall|j: int| 0 <= j < i && kline_shaped(#[trigger] items@[j]) ==> opentime_fits(items@[j]),
        decreases items@.len() - i,
    {
        let k = &items[i];
        if is_kline_shaped(k) {
            let fits = match k.get(0) {
                Some(JsonValue::Number(n)) => n.as_i64().is_some(),
                _ => true,
            };
            if !fits {
                return false;
            }
        }
        i = i + 1;
    }
    true
}

fn read_string(k: &JsonValue, index: usize) -> (s: Option<String>)
    ensures
        s is Some == (k.spec_get(index as int) matches Some(JsonValue::String(_))),
        s is Some ==> s->0 == string_at(*k, index as int),
{
    match k.get(index) {
        Some(JsonValue::String(s)) => Some(s.clone()),
        _ => None,
    }
}

/// The candle that `k` stands for: nothing where `k` does not have the shape
/// of a candle.
fn read_kline(k: &JsonValue) -> (r: Option<Kline>)
    requires
        kline_shaped(*k) ==> opentime_fits(*k),
    ensures
        !kline_shaped(*k) ==> r == None::<Kline>,
        kline_shaped(*k) ==> r == Some(kline_of(*k)),
{
    let number = match k.get(0) {
        Some(JsonValue::Number(n)) => n,
        _ => return None,
    };
    let open = match read_string(k, 1) {
        Some(s) => s,
        None => return None,
    };
    let high = match read_string(k, 2) {
        Some(s) => s,
        None => return None,
    };
    let low = match read_string(k, 3) {
        Some(s) => s,
        None => return None,
    };
    let close = match read_string(k, 4) {
        Some(s) => s,
        None => return None,
    };
    let volume = match read_string(k, 5) {
        Some(s) => s,
        None => return None,
    };
    let opentime = number.as_i64().unwrap();
    Some(Kline { opentime, open, high, low, close, volume })
}

/// Reads the candles out of an answer of the exchange: the answer must be
/// an array; its elements that have the shape of a candle become candles,
/// in order, and the others are passed over. The opening times must fit in
/// an `i64` (see `opentimes_are_i64`).
pub fn parse_klines(doc: &JsonValue) -> (r: Result<Vec<Kline>, KlineParseError>)
    requires
        doc_opentimes_fit(*doc),
    ensures
        r is Ok == spec_parse_klines(*doc) is Ok,
        r is Ok ==> r->Ok_0@ == spec_parse_klines(*doc)->Ok_0,
        r is Err ==> r->Err_0 == spec_parse_klines(*doc)->Err_0,
{
    let items = match doc {
        JsonValue::Array(items) => items,
        _ => return Err(KlineParseError::NotAnArray),
    };
    let mut klines: Vec<Kline> = Vec::new();
    let mut i: usize = 0;
    while i < items.len()
        invariant
            *doc == JsonValue::Array(*items),
            i <= items@.len(),
            klines@ == klines_of(items@.take(i as int)),
            opentimes_fit(items@),
        decreases items@.len() - i,
    {
        let ghost prefix = items@.take(i as int);
        let ghost next = items@.take(i + 1);
        assert(next.drop_last() =~= prefix);
        assert(next.last() == items@[i as int]);
        if let Some(k) = read_kline(&items[i]) {
            klines.push(k);
        }
        i = i + 1;
    }
    assert(items@.take(i as int) =~= items@);
    Ok(klines)
}

/// Reads the candles out of the text of an answer of the exchange: nothing
/// where the text is not a JSON document, `OpenTimeNotI64` where a candle's
/// opening time does not fit in an `i64`, and otherwise what `parse_klines`
/// reads out of the document.
pub fn klines_from_text(text: &str) -> (r: Option<Result<Vec<Kline>, KlineParseError>>)
    ensures
        r is None <==> spec_klines_from_text(text@) is None,
        r is Some ==> (r->0 is Ok <==> spec_klines_from_text(text@)->0 is Ok),
        r is Some && r->0 is Ok ==> r->0->Ok_0@ == spec_klines_from_text(text@)->0->Ok_0,
        r is Some && r->0 is Err ==> r->0->Err_0 == spec_klines_from_text(text@)->0->Err_0,
{
    let doc = match read_json(text) {
        Some(doc) => doc,
        None => return None,
    };
    if !opentimes_are_i64(&doc) {
        return Some(Err(KlineParseError::OpenTimeNotI64));
    }
    Some(parse_klines(&doc))
}

/// The candles that are stored out of those fetched since the last stored
/// one: the first (already stored) and the last two are left out. At least
/// two candles must have been fetched.
pub open spec fn spec_klines_to_insert(klines: Seq<Kline>) -> Seq<Kline> {
    if klines.len() >= 3 {
        klines.subrange(1, klines.len() - 2)
    } else {
        Seq::empty()
    }
}

/// Of `n` fetched candles, `n - 3` are stored when `n` is at least 3 and
/// none when `n` is 2: the `j`-th stored candle is the fetched candle of
/// index `j + 1`, so the first and the last two fetched are never stored.
pub proof fn lemma_stored_candles(fetched: Seq<Kline>)
    requires
        fetched.len() >= 2,
    ensures
        fetched.len() >= 3 ==> spec_klines_to_insert(fetched).len() == fetched.len() - 3,
        fetched.len() == 2 ==> spec_klines_to_insert(fetched).len() == 0,
        forall|j: int|
            0 <= j < fetched.len() - 3 ==> #[trigger] spec_klines_to_insert(fetched)[j]
                == fetched[j + 1],
{
}

/// The candles that are stored out of those fetched since the last stored
/// one: the first (already stored) and the last two are left out.
pub fn klines_to_insert(klines: Vec<Kline>) -> (stored: Vec<Kline>)
    requires
        klines@.len() >= 2,
    ensures
        stored@ == spec_klines_to_insert(klines@),
{
    let mut stored = klines;
    let n = stored.len();
    stored.truncate(n - 2);
    if n >= 3 {
        stored.remove(0);
    }
    assert(stored@ =~= spec_klines_to_insert(klines@));
    stored
}

} // verus!
