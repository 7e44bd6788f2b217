//! The response payload types and the two response builders: a success
//! response framing the visualization as JSON, and an error response
//! framing a failure message. Both are total: framing never fails.
//!
//! The HTTP response is modelled as plain data (status, content type,
//! cache-control, body); the hosting runtime turns it into its own
//! response value unchanged.

use crate::activity::{digits_val, is_digits};
use crate::json_write::{json_of_string, milli_chars, spec_dec};
use crate::school::FishData;
use vstd::prelude::*;

verus! {

/// One legend entry: a variant name and its description.
#[derive(Debug, Clone, PartialEq)]
pub struct FishLegend {
    pub fish: String,
    pub description: String,
}

/// Descriptive metadata for the visualization, passed through unchanged.
#[derive(Debug, Clone, PartialEq)]
pub struct Legend {
    pub description: String,
    pub fish_legends: Vec<FishLegend>,
}

/// The success payload: an optional legend and the ordered school.
#[derive(Debug, Clone)]
pub struct InputData {
    pub legend: Option<Legend>,
    pub school: Vec<FishData>,
}

/// An HTTP response as plain data. The body is the full JSON text.
#[derive(Debug, Clone)]
pub struct HttpResponse {
    pub status: u16,
    pub content_type: String,
    pub cache_control: Option<String>,
    pub body: String,
}

/// The JSON object of one visual record, fields in declaration order.
pub open spec fn json_of_fish(f: FishData) -> Seq<char> {
    "{\"fish\":"@ + json_of_string(f.fish@) + ",\"size\":"@ + milli_chars(f.size as int)
        + ",\"speed\":"@ + milli_chars(f.speed as int) + ",\"bubbles\":"@ + milli_chars(
        f.bubbles as int,
    ) + "}"@
}

/// The comma-separated JSON objects of the school, in order.
pub open spec fn json_of_school(v: Seq<FishData>) -> Seq<char>
    decreases v.len(),
{
    if v.len() == 0 {
        Seq::<char>::empty()
    } else if v.len() == 1 {
        json_of_fish(v[0])
    } else {
        json_of_school(v.drop_last()) + seq![','] + json_of_fish(v.last())
    }
}

/// The JSON object of one legend entry.
pub open spec fn json_of_fish_legend(l: FishLegend) -> Seq<char> {
    "{\"fish\":"@ + json_of_string(l.fish@) + ",\"description\":"@ + json_of_string(
        l.description@,
    ) + "}"@
}

/// The comma-separated JSON objects of the legend entries, in order.
pub open spec fn json_of_fish_legends(v: Seq<FishLegend>) -> Seq<char>
    decreases v.len(),
{
    if v.len() == 0 {
        Seq::<char>::empty()
    } else if v.len() == 1 {
        json_of_fish_legend(v[0])
    } else {
        json_of_fish_legends(v.drop_last()) + seq![','] + json_of_fish_legend(v.last())
    }
}

/// The JSON object of the legend.
pub open spec fn json_of_legend(l: Legend) -> Seq<char> {
    "{\"description\":"@ + json_of_string(l.description@) + ",\"fish_legends\":["@
        + json_of_fish_legends(l.fish_legends@) + "]}"@
}

/// The JSON object of the whole success payload. A missing legend is
/// omitted, not written as null.
pub open spec fn json_of_input(d: InputData) -> Seq<char> {
    "{"@ + (match d.legend {
        Option::Some(l) => "\"legend\":"@ + json_of_legend(l) + ","@,
        Option::None => Seq::<char>::empty(),
    }) + "\"school\":["@ + json_of_school(d.school@) + "]}"@
}

/// The JSON body of an error response: exactly a one-field object with the
/// message.
pub open spec fn json_of_error_body(msg: Seq<char>) -> Seq<char> {
    "{\"message\":"@ + json_of_string(msg) + "}"@
}

/// The number of seconds of the success response's cache-control header:
/// the configured value when it is a digit string that fits, and 60 when it
/// is absent or unparsable.
pub open spec fn cache_seconds(c: Option<String>) -> nat {
    match c {
        Option::None => 60,
        Option::Some(s) => if s@.len() > 0 && is_digits(s@) && digits_val(s@) <= u64::MAX {
            digits_val(s@)
        } else {
            60
        },
    }
}

/// The cache-control header value of a success response.
pub open spec fn cache_header(c: Option<String>) -> Seq<char> {
    "max-age="@ + spec_dec(cache_seconds(c)) + ", public"@
}

/// Append the JSON object of one visual record to `out`.
fn append_fish(out: &mut String, f: &FishData)
    ensures
        final(out)@ == old(out)@ + json_of_fish(*f),
{
    out.append("{\"fish\":");
    crate::json_write::append_json_string(out, f.fish.as_str());
    out.append(",\"size\":");
    let size = crate::json_write::milli_string(f.size);
    out.append(size.as_str());
    out.append(",\"speed\":");
    let speed = crate::json_write::milli_string(f.speed);
    out.append(speed.as_str());
    out.append(",\"bubbles\":");
    let bubbles = crate::json_write::milli_string(f.bubbles);
    out.append(bubbles.as_str());
    out.append("}");
    proof {
        assert(out@ =~= old(out)@ + json_of_fish(*f));
    }
}

/// Append the comma-separated school records to `out`.
fn append_school(out: &mut String, v: &Vec<FishData>)
    ensures
        final(out)@ == old(out)@ + json_of_school(v@),
{
    let n = v.len();
    let mut i: usize = 0;
    while i < n
        invariant
            n == v@.len(),
            0 <= i <= n,
            out@ == old(out)@ + json_of_school(v@.subrange(0, i as int)),
        decreases n - i,
    {
        if i > 0 {
            crate::json_write::append_comma(out);
        }
        append_fish(out, &v[i]);
        proof {
            let prefix = v@.subrange(0, i as int + 1);
            assert(prefix.drop_last() =~= v@.subrange(0, i as int));
            assert(prefix.last() == v@[i as int]);
            assert(out@ =~= old(out)@ + json_of_school(prefix));
        }
        i = i + 1;
    }
    proof {
        assert(v@.subrange(0, n as int) =~= v@);
    }
}

/// Append the JSON object of one legend entry to `out`.
fn append_fish_legend(out: &mut String, l: &FishLegend)
    ensures
        final(out)@ == old(out)@ + json_of_fish_legend(*l),
{
    out.append("{\"fish\":");
    crate::json_write::append_json_string(out, l.fish.as_str());
    out.append(",\"description\":");
    crate::json_write::append_json_string(out, l.description.as_str());
    out.append("}");
    proof {
        assert(out@ =~= old(out)@ + json_of_fish_legend(*l));
    }
}

/// Append the comma-separated legend entries to `out`.
fn append_fish_legends(out: &mut String, v: &Vec<FishLegend>)
    ensures
        final(out)@ == old(out)@ + json_of_fish_legends(v@),
{
    let n = v.len();
    let mut i: usize = 0;
    while i < n
        invariant
            n == v@.len(),
            0 <= i <= n,
            out@ == old(out)@ + json_of_fish_legends(v@.subrange(0, i as int)),
        decreases n - i,
    {
        if i > 0 {
            crate::json_write::append_comma(out);
        }
        append_fish_legend(out, &v[i]);
        proof {
            let prefix = v@.subrange(0, i as int + 1);
            assert(prefix.drop_last() =~= v@.subrange(0, i as int));
            assert(prefix.last() == v@[i as int]);
            assert(out@ =~= old(out)@ + json_of_fish_legends(prefix));
        }
        i = i + 1;
    }
    proof {
        assert(v@.subrange(0, n as int) =~= v@);
    }
}

/// Append the JSON object of the legend to `out`.
fn append_legend(out: &mut String, l: &Legend)
    ensures
        final(out)@ == old(out)@ + json_of_legend(*l),
{
    out.append("{\"description\":");
    crate::json_write::append_json_string(out, l.description.as_str());
    out.append(",\"fish_legends\":[");
    append_fish_legends(out, &l.fish_legends);
    out.append("]}");
    proof {
        assert(out@ =~= old(out)@ + json_of_legend(*l));
    }
}

/// Build the success response: status 200, JSON content type, a
/// cache-control header carrying the configured (or default) max-age, and
/// the payload serialized as the body. Total: framing cannot fail.
pub fn build_response(data: &InputData, cache_config: &Option<String>) -> (r: HttpResponse)
    ensures
        r.status == 200,
        r.content_type@ == "application/json"@,
        r.cache_control is Some,
        r.cache_control->0@ == cache_header(*cache_config),
        r.body@ == json_of_input(*data),
{
    let mut body = String::from_str("{");
    match &data.legend {
        Option::Some(l) => {
            body.append("\"legend\":");
            append_legend(&mut body, l);
            body.append(",");
        },
        Option::None => {},
    }
    body.append("\"school\":[");
    append_school(&mut body, &data.school);
    body.append("]}");
    proof {
        assert(body@ =~= json_of_input(*data));
    }
    let secs: u64 = match cache_config {
        Option::None => 60,
        Option::Some(s) => match crate::activity::parse_digits(s.as_str()) {
            Option::Some(v) => v,
            Option::None => 60,
        },
    };
    let mut cc = String::from_str("max-age=");
    let secs_text = crate::json_write::dec_u64(secs);
    cc.append(secs_text.as_str());
    cc.append(", public");
    proof {
        assert(cc@ =~= cache_header(*cache_config));
    }
    HttpResponse {
        status: 200,
        content_type: String::from_str("application/json"),
        cache_control: Option::Some(cc),
        body,
    }
}

/// Build the error response: status 500, JSON content type, no
/// cache-control, and a body that is exactly the one-field message object.
/// Total: framing cannot fail.
pub fn build_error_response(error_message: &str) -> (r: HttpResponse)
    ensures
        r.status == 500,
        r.content_type@ == "application/json"@,
        r.cache_control is None,
        r.body@ == json_of_error_body(error_message@),
{
    let mut body = String::from_str("{\"message\":");
    crate::json_write::append_json_string(&mut body, error_message);
    body.append("}");
    proof {
        assert(body@ =~= json_of_error_body(error_message@));
    }
    HttpResponse {
        status: 500,
        content_type: String::from_str("application/json"),
        cache_control: Option::None,
        body,
    }
}

} // verus!
