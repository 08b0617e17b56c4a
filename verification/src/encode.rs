//! The line-protocol encoder: decimal rendering of integers and the
//! wire text of a telemetry point,
//! `measurement[,tag=value]* [field=value[,field=value]*] timestamp`.
//!
//! No escaping is performed: tag and field text must not itself contain
//! the delimiters `,`, `=` or whitespace, or the line becomes ambiguous
//! to the receiver.  String field values are written unquoted; both are
//! documented properties of this system's encoding.

use vstd::prelude::*;

use crate::point::{InfluxField, InfluxPoint, InfluxTag, value_text};

verus! {

/// The character for one decimal digit.
pub open spec fn digit_char(d: nat) -> char {
    if d == 0 {
        '0'
    } else if d == 1 {
        '1'
    } else if d == 2 {
        '2'
    } else if d == 3 {
        '3'
    } else if d == 4 {
        '4'
    } else if d == 5 {
        '5'
    } else if d == 6 {
        '6'
    } else if d == 7 {
        '7'
    } else if d == 8 {
        '8'
    } else {
        '9'
    }
}

/// The usual decimal numeral of a natural number: most significant digit
/// first, no sign, no leading zeros (a single zero for zero itself).
pub open spec fn dec_rep(n: nat) -> Seq<char>
    decreases n,
{
    if n < 10 {
        seq![digit_char(n)]
    } else {
        dec_rep(n / 10).push(digit_char(n % 10))
    }
}

/// The decimal numeral of an integer: a minus sign before the numeral of
/// the magnitude when negative.
pub open spec fn int_rep(i: int) -> Seq<char> {
    if i >= 0 {
        dec_rep(i as nat)
    } else {
        seq!['-'] + dec_rep((-i) as nat)
    }
}

/// Whether a character is a decimal digit.
pub open spec fn is_digit(c: char) -> bool {
    c == '0' || c == '1' || c == '2' || c == '3' || c == '4' || c == '5' || c == '6' || c == '7'
        || c == '8' || c == '9'
}

/// A decimal numeral is never empty and consists of digits alone; in
/// particular it contains no whitespace and no separator, so the
/// timestamp token at the end of a line is exactly one token.
pub proof fn lemma_dec_rep_digits(n: nat)
    ensures
        dec_rep(n).len() >= 1,
        forall|i: int| 0 <= i < dec_rep(n).len() ==> is_digit(#[trigger] dec_rep(n)[i]),
    decreases n,
{
    if n >= 10 {
        lemma_dec_rep_digits(n / 10);
    }
}

/// The wire text of one tag: a comma, the key, an equals sign, the value.
pub open spec fn tag_text(t: InfluxTag) -> Seq<char> {
    ","@ + t.name@ + "="@ + t.value@
}

/// The wire text of a sequence of tags, in insertion order.
pub open spec fn tags_text(tags: Seq<InfluxTag>) -> Seq<char>
    decreases tags.len(),
{
    if tags.len() == 0 {
        Seq::<char>::empty()
    } else {
        tags_text(tags.drop_last()) + tag_text(tags.last())
    }
}

/// The wire text of one field: the key, an equals sign, the value.
pub open spec fn field_text(f: InfluxField) -> Seq<char> {
    f.name@ + "="@ + value_text(f.value)
}

/// The wire text of a sequence of fields, in insertion order, separated
/// by commas; no comma leads or trails.
pub open spec fn fields_text(fields: Seq<InfluxField>) -> Seq<char>
    decreases fields.len(),
{
    if fields.len() == 0 {
        Seq::<char>::empty()
    } else if fields.len() == 1 {
        field_text(fields[0])
    } else {
        fields_text(fields.drop_last()) + ","@ + field_text(fields.last())
    }
}

/// The whole encoded line for a point and a timestamp: measurement,
/// tags, one space and the fields only when there are any, one space,
/// and the decimal timestamp.
pub open spec fn line_of(p: InfluxPoint, timestamp: u64) -> Seq<char> {
    p.measurement@ + tags_text(p.tags@) + (if p.fields@.len() == 0 {
        Seq::<char>::empty()
    } else {
        " "@ + fields_text(p.fields@)
    }) + " "@ + dec_rep(timestamp as nat)
}

/// Law: tag text is emitted strictly in insertion order; rendering a
/// concatenation of tag sequences concatenates their renderings, so
/// tags already emitted are never moved by tags added later.
pub proof fn lemma_tags_text_app(a: Seq<InfluxTag>, b: Seq<InfluxTag>)
    ensures
        tags_text(a + b) == tags_text(a) + tags_text(b),
    decreases b.len(),
{
    if b.len() == 0 {
        assert(a + b =~= a);
        assert(tags_text(a) + tags_text(b) =~= tags_text(a));
    } else {
        lemma_tags_text_app(a, b.drop_last());
        assert((a + b).drop_last() =~= a + b.drop_last());
        assert((a + b).last() == b.last());
        assert(tags_text(a) + (tags_text(b.drop_last()) + tag_text(b.last())) =~= (tags_text(a)
            + tags_text(b.drop_last())) + tag_text(b.last()));
    }
}

/// Law: field text is emitted strictly in insertion order; appending a
/// field appends its rendering, after a comma, and leaves the text of
/// the fields already present unchanged.
pub proof fn lemma_fields_text_push(a: Seq<InfluxField>, f: InfluxField)
    requires
        a.len() >= 1,
    ensures
        fields_text(a.push(f)) == fields_text(a) + ","@ + field_text(f),
{
    assert(a.push(f).drop_last() =~= a);
    assert(a.push(f).last() == f);
}

/// Law: a point with an empty field set still encodes to a well-formed
/// line: measurement and tags, then exactly one space and the decimal
/// timestamp, with no dangling separator.
pub proof fn lemma_empty_fields_line(p: InfluxPoint, timestamp: u64)
    requires
        p.fields@.len() == 0,
    ensures
        line_of(p, timestamp) == p.measurement@ + tags_text(p.tags@) + " "@ + dec_rep(
            timestamp as nat,
        ),
        forall|i: int|
            0 <= i < dec_rep(timestamp as nat).len() ==> is_digit(
                #[trigger] dec_rep(timestamp as nat)[i],
            ),
{
    lemma_dec_rep_digits(timestamp as nat);
    assert(line_of(p, timestamp) =~= p.measurement@ + tags_text(p.tags@) + " "@ + dec_rep(
        timestamp as nat,
    ));
}

/// The wire text of the four documented tags of a data point, in the
/// documented order.
pub open spec fn data_tags_of(b: crate::point::Backup) -> Seq<char> {
    ","@ + "host"@ + "="@ + b.host@ + (","@ + "backup_name"@ + "="@ + b.backup_name@) + (","@
        + "encryption"@ + "="@ + b.encryption@) + (","@ + "repo_location"@ + "="@
        + b.repo_location@)
}

/// The wire text of the five documented fields of a data point, in the
/// documented order.
pub open spec fn data_fields_of(b: crate::point::Backup) -> Seq<char> {
    "duration"@ + "="@ + b.duration@ + ","@ + ("compressed_size"@ + "="@ + int_rep(
        b.compressed_size as int,
    )) + ","@ + ("deduplicated_size"@ + "="@ + int_rep(b.deduplicated_size as int)) + ","@ + (
    "number_of_files"@ + "="@ + int_rep(b.number_of_files as int)) + ","@ + ("original_size"@
        + "="@ + int_rep(b.original_size as int))
}

/// The full wire text owed for the data point of a backup summary:
/// exactly the four documented tags and the five documented fields, in
/// the documented order, terminated by the decimal timestamp.
pub open spec fn data_line_of(b: crate::point::Backup, timestamp: u64) -> Seq<char> {
    "backup_data"@ + data_tags_of(b) + (" "@ + data_fields_of(b)) + " "@ + dec_rep(
        timestamp as nat,
    )
}

/// Law: for every backup summary, the point built from it encodes to a
/// line holding exactly 4 tags and 5 fields in the documented order,
/// terminated by an integer timestamp (`data_line_of` spells the line
/// out; the timestamp numeral is all digits by `lemma_dec_rep_digits`).
pub proof fn lemma_data_point_line(p: InfluxPoint, b: crate::point::Backup, timestamp: u64)
    requires
        crate::point::is_data_point(p, b),
    ensures
        line_of(p, timestamp) == data_line_of(b, timestamp),
{
    let t = p.tags@;
    let f = p.fields@;
    assert(tag_text(t[0]) == ","@ + "host"@ + "="@ + b.host@);
    assert(tag_text(t[1]) == ","@ + "backup_name"@ + "="@ + b.backup_name@);
    assert(tag_text(t[2]) == ","@ + "encryption"@ + "="@ + b.encryption@);
    assert(tag_text(t[3]) == ","@ + "repo_location"@ + "="@ + b.repo_location@);
    assert(t.drop_last() =~= t.subrange(0, 3));
    assert(t.subrange(0, 3).drop_last() =~= t.subrange(0, 2));
    assert(t.subrange(0, 2).drop_last() =~= t.subrange(0, 1));
    assert(t.subrange(0, 1).drop_last() =~= Seq::<InfluxTag>::empty());
    assert(t.subrange(0, 1).last() == t[0]);
    assert(tags_text(t.subrange(0, 1)) == tags_text(Seq::<InfluxTag>::empty()) + tag_text(t[0]));
    assert(Seq::<char>::empty() + tag_text(t[0]) =~= tag_text(t[0]));
    assert(tags_text(t.subrange(0, 1)) == tag_text(t[0]));
    assert(tags_text(t.subrange(0, 2)) == tags_text(t.subrange(0, 1)) + tag_text(t[1]));
    assert(tags_text(t.subrange(0, 3)) == tags_text(t.subrange(0, 2)) + tag_text(t[2]));
    assert(tags_text(t) == tags_text(t.subrange(0, 3)) + tag_text(t[3]));
    assert(tags_text(t) == data_tags_of(b));
    assert(field_text(f[0]) == "duration"@ + "="@ + b.duration@);
    assert(field_text(f[1]) == "compressed_size"@ + "="@ + int_rep(b.compressed_size as int));
    assert(field_text(f[2]) == "deduplicated_size"@ + "="@ + int_rep(b.deduplicated_size as int));
    assert(field_text(f[3]) == "number_of_files"@ + "="@ + int_rep(b.number_of_files as int));
    assert(field_text(f[4]) == "original_size"@ + "="@ + int_rep(b.original_size as int));
    assert(f.drop_last() =~= f.subrange(0, 4));
    assert(f.subrange(0, 4).drop_last() =~= f.subrange(0, 3));
    assert(f.subrange(0, 3).drop_last() =~= f.subrange(0, 2));
    assert(f.subrange(0, 2).drop_last() =~= f.subrange(0, 1));
    assert(fields_text(f.subrange(0, 1)) == field_text(f[0]));
    assert(fields_text(f.subrange(0, 2)) == fields_text(f.subrange(0, 1)) + ","@ + field_text(
        f[1],
    ));
    assert(fields_text(f.subrange(0, 3)) == fields_text(f.subrange(0, 2)) + ","@ + field_text(
        f[2],
    ));
    assert(fields_text(f.subrange(0, 4)) == fields_text(f.subrange(0, 3)) + ","@ + field_text(
        f[3],
    ));
    assert(fields_text(f) == fields_text(f.subrange(0, 4)) + ","@ + field_text(f[4]));
    assert(fields_text(f) == data_fields_of(b));
    assert(line_of(p, timestamp) == data_line_of(b, timestamp));
}

/// The wire text of the three run tags every framing and error point
/// carries, in insertion order.
pub open spec fn run_tags_text_of(cfg: crate::config::BorgFluxConfig) -> Seq<char> {
    ","@ + "host"@ + "="@ + cfg.hostname@ + (","@ + "repository"@ + "="@ + cfg.borg_repository@)
        + (","@ + "source_path"@ + "="@ + cfg.borg_source_path@)
}

/// The full wire text owed for a framing point: the measurement, the
/// three run tags, the placeholder field, the decimal timestamp.
pub open spec fn frame_line_of(
    cfg: crate::config::BorgFluxConfig,
    measurement: Seq<char>,
    timestamp: u64,
) -> Seq<char> {
    measurement + run_tags_text_of(cfg) + (" "@ + ("dummy"@ + "="@ + int_rep(0))) + " "@
        + dec_rep(timestamp as nat)
}

/// The full wire text owed for an error point: the "backup_error"
/// measurement, the three run tags, the diagnostic text as its single
/// field, the decimal timestamp.
pub open spec fn error_line_of(
    cfg: crate::config::BorgFluxConfig,
    error_text: Seq<char>,
    timestamp: u64,
) -> Seq<char> {
    "backup_error"@ + run_tags_text_of(cfg) + (" "@ + ("error"@ + "="@ + error_text)) + " "@
        + dec_rep(timestamp as nat)
}

/// Unfolds the tag text of the three run tags.
proof fn lemma_run_tags_text(t: Seq<InfluxTag>, cfg: crate::config::BorgFluxConfig)
    requires
        t.len() == 3,
        t[0].name@ == "host"@ && t[0].value@ == cfg.hostname@,
        t[1].name@ == "repository"@ && t[1].value@ == cfg.borg_repository@,
        t[2].name@ == "source_path"@ && t[2].value@ == cfg.borg_source_path@,
    ensures
        tags_text(t) == run_tags_text_of(cfg),
{
    assert(tag_text(t[0]) == ","@ + "host"@ + "="@ + cfg.hostname@);
    assert(tag_text(t[1]) == ","@ + "repository"@ + "="@ + cfg.borg_repository@);
    assert(tag_text(t[2]) == ","@ + "source_path"@ + "="@ + cfg.borg_source_path@);
    assert(t.drop_last() =~= t.subrange(0, 2));
    assert(t.subrange(0, 2).drop_last() =~= t.subrange(0, 1));
    assert(t.subrange(0, 1).drop_last() =~= Seq::<InfluxTag>::empty());
    assert(t.subrange(0, 1).last() == t[0]);
    assert(tags_text(t.subrange(0, 1)) == tags_text(Seq::<InfluxTag>::empty()) + tag_text(t[0]));
    assert(Seq::<char>::empty() + tag_text(t[0]) =~= tag_text(t[0]));
    assert(tags_text(t.subrange(0, 2)) == tags_text(t.subrange(0, 1)) + tag_text(t[1]));
    assert(tags_text(t) == tags_text(t.subrange(0, 2)) + tag_text(t[2]));
}

/// Law: a framing point encodes to exactly the line `frame_line_of`
/// spells out.
pub proof fn lemma_frame_point_line(
    p: InfluxPoint,
    cfg: crate::config::BorgFluxConfig,
    measurement: Seq<char>,
    timestamp: u64,
)
    requires
        crate::point::is_frame_point(p, cfg, measurement),
    ensures
        line_of(p, timestamp) == frame_line_of(cfg, measurement, timestamp),
{
    lemma_run_tags_text(p.tags@, cfg);
    let f = p.fields@;
    assert(fields_text(f) == field_text(f[0]));
    assert(field_text(f[0]) == "dummy"@ + "="@ + int_rep(0));
    assert(line_of(p, timestamp) == frame_line_of(cfg, measurement, timestamp));
}

/// Law: an error point encodes to exactly the line `error_line_of`
/// spells out; the diagnostic text rides along unchanged.
pub proof fn lemma_error_point_line(
    p: InfluxPoint,
    cfg: crate::config::BorgFluxConfig,
    error_text: Seq<char>,
    timestamp: u64,
)
    requires
        crate::point::is_error_point(p, cfg, error_text),
    ensures
        line_of(p, timestamp) == error_line_of(cfg, error_text, timestamp),
{
    lemma_run_tags_text(p.tags@, cfg);
    let f = p.fields@;
    assert(fields_text(f) == field_text(f[0]));
    assert(field_text(f[0]) == "error"@ + "="@ + error_text);
    assert(line_of(p, timestamp) == error_line_of(cfg, error_text, timestamp));
}

/// The decimal text of one digit.
fn digit_to_str(d: u64) -> (r: &'static str)
    requires
        d < 10,
    ensures
        r@ == seq![digit_char(d as nat)],
{
    proof {
        reveal_strlit("0");
        reveal_strlit("1");
        reveal_strlit("2");
        reveal_strlit("3");
        reveal_strlit("4");
        reveal_strlit("5");
        reveal_strlit("6");
        reveal_strlit("7");
        reveal_strlit("8");
        reveal_strlit("9");
    }
    let r: &'static str = if d == 0 {
        "0"
    } else if d == 1 {
        "1"
    } else if d == 2 {
        "2"
    } else if d == 3 {
        "3"
    } else if d == 4 {
        "4"
    } else if d == 5 {
        "5"
    } else if d == 6 {
        "6"
    } else if d == 7 {
        "7"
    } else if d == 8 {
        "8"
    } else {
        "9"
    };
    proof {
        assert(r@ =~= seq![digit_char(d as nat)]);
    }
    r
}

/// Renders an unsigned integer as its decimal numeral.
pub fn u64_to_string(n: u64) -> (s: String)
    ensures
        s@ == dec_rep(n as nat),
    decreases n,
{
    if n < 10 {
        String::from_str(digit_to_str(n))
    } else {
        let mut s = u64_to_string(n / 10);
        s.append(digit_to_str(n % 10));
        proof {
            assert(s@ =~= dec_rep(n as nat));
        }
        s
    }
}

/// Renders a signed integer as its decimal numeral.
pub fn i64_to_string(v: i64) -> (s: String)
    ensures
        s@ == int_rep(v as int),
{
    if v >= 0 {
        u64_to_string(v as u64)
    } else {
        let mag: u64 = if v == i64::MIN {
            9223372036854775808u64
        } else {
            (-v) as u64
        };
        proof {
            assert(mag as int == -(v as int));
        }
        let mut s = String::from_str("-");
        let mag_text = u64_to_string(mag);
        s.append(mag_text.as_str());
        proof {
            reveal_strlit("-");
            assert(s@ =~= int_rep(v as int));
        }
        s
    }
}

/// Encodes a point against a caller-supplied timestamp.  Pure: the
/// result is exactly `line_of` for that point and timestamp.
pub fn build_raw_data_from_point(point: &InfluxPoint, timestamp: u64) -> (r: String)
    ensures
        r@ == line_of(*point, timestamp),
{
    let mut raw = point.measurement.clone();
    let n_tags = point.tags.len();
    let mut i: usize = 0;
    while i < n_tags
        invariant
            i <= n_tags,
            n_tags == point.tags@.len(),
            raw@ == point.measurement@ + tags_text(point.tags@.subrange(0, i as int)),
        decreases n_tags - i,
    {
        let t = &point.tags[i];
        raw.append(",");
        raw.append(t.name.as_str());
        raw.append("=");
        raw.append(t.value.as_str());
        i = i + 1;
        proof {
            let done = point.tags@.subrange(0, i as int);
            assert(done.drop_last() =~= point.tags@.subrange(0, i as int - 1));
            assert(done.last() == point.tags@[i as int - 1]);
            assert(raw@ =~= point.measurement@ + tags_text(done));
        }
    }
    proof {
        assert(point.tags@.subrange(0, point.tags@.len() as int) =~= point.tags@);
    }
    if point.fields.len() > 0 {
        raw.append(" ");
    }
    let n_fields = point.fields.len();
    let mut j: usize = 0;
    while j < n_fields
        invariant
            j <= n_fields,
            n_fields == point.fields@.len(),
            j == 0 ==> raw@ == point.measurement@ + tags_text(point.tags@) + (if n_fields == 0 {
                Seq::<char>::empty()
            } else {
                " "@
            }),
            j >= 1 ==> raw@ == point.measurement@ + tags_text(point.tags@) + " "@ + fields_text(
                point.fields@.subrange(0, j as int),
            ),
        decreases n_fields - j,
    {
        if j > 0 {
            raw.append(",");
        }
        let f = &point.fields[j];
        raw.append(f.name.as_str());
        raw.append("=");
        match &f.value {
            crate::point::InfluxFieldValue::Float(text) => raw.append(text.as_str()),
            crate::point::InfluxFieldValue::Int(v) => {
                let rendered = i64_to_string(*v);
                raw.append(rendered.as_str());
            },
            crate::point::InfluxFieldValue::Text(text) => raw.append(text.as_str()),
        }
        j = j + 1;
        proof {
            let done = point.fields@.subrange(0, j as int);
            assert(done.drop_last() =~= point.fields@.subrange(0, j as int - 1));
            assert(done.last() == point.fields@[j as int - 1]);
            if j == 1 {
                assert(done =~= seq![point.fields@[0]]);
            }
            assert(raw@ =~= point.measurement@ + tags_text(point.tags@) + " "@ + fields_text(
                done,
            ));
        }
    }
    proof {
        assert(point.fields@.subrange(0, point.fields@.len() as int) =~= point.fields@);
    }
    raw.append(" ");
    let ts_text = u64_to_string(timestamp);
    raw.append(ts_text.as_str());
    proof {
        assert(raw@ =~= line_of(*point, timestamp));
    }
    raw
}

/// Reads the system clock.
///
/// Relies on std::time::SystemTime::now and Duration::as_secs: the
/// number of whole seconds between the Unix epoch and now, or zero when
/// the clock reads before the epoch.  Nothing is promised of the value.
#[verifier::external_body]
pub(crate) fn unix_now() -> u64 {
    match std::time::SystemTime::now().duration_since(std::time::SystemTime::UNIX_EPOCH) {
        Ok(elapsed) => elapsed.as_secs(),
        Err(_) => 0,
    }
}

/// Encodes a point, stamping it with the current time in seconds: the
/// result is `line_of` for the point and the sampled timestamp.
pub fn encode(point: &InfluxPoint) -> (r: String)
    ensures
        exists|ts: u64| r@ == line_of(*point, ts),
{
    let ts = unix_now();
    let r = build_raw_data_from_point(point, ts);
    proof {
        assert(r@ == line_of(*point, ts));
    }
    r
}

} // verus!
