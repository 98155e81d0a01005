//! Export of finished spans: a pretty-printed JSON array, or an OTLP
//! resource-spans document posted to a collector.
use vstd::prelude::*;
use vstd::string::StringExecFns;
use crate::config::TelemetryConfig;
use crate::error::TelemetryError;
use crate::span::{operation_text, status_text, SpanRecord, SpanStatus};
use crate::text::{decimal, decimal_text, fixed, fixed_text};

verus! {

/// Output format of an exporter.
#[derive(Debug, Clone, Copy, PartialEq, Eq, Structural)]
pub enum ExportFormat {
    Otlp,
    Json,
    Stdout,
}

/// A span in export shape: operation and status rendered as text, duration in
/// nanoseconds.
#[derive(Debug, Clone)]
pub struct ExportedSpan {
    pub name: String,
    pub service: String,
    pub operation: String,
    pub duration_nanos: Option<u64>,
    pub status: String,
    pub attributes: Vec<(String, String)>,
}

/// One entry of an OTLP span list.
#[derive(Debug, Clone)]
pub struct OtlpSpan {
    pub name: String,
    pub kind: u32,
    pub attributes: Vec<(String, String)>,
    pub status_code: u32,
    pub status_message: String,
    pub duration_nanos: u64,
}

/// What an export asks its caller to do: show a text, or post a body to an
/// endpoint and hand the outcome to `Exporter::complete`.
#[derive(Debug, Clone)]
pub enum ExportRequest {
    Text(String),
    Post { endpoint: String, body: String, span_count: usize },
}

/// How a post to the collector ended.
#[derive(Debug, Clone)]
pub enum PostOutcome {
    /// The collector answered with status `code`, whose reason phrase is
    /// `reason`, and response body `body`.
    Responded { code: u16, reason: String, body: String },
    /// No answer: the transport's description of the failure.
    Failed(String),
}

/// Exporter of finished spans in one format.
pub struct Exporter {
    config: TelemetryConfig,
    format: ExportFormat,
}

/// The JSON string literal for `s`, quotes and escapes included.
pub uninterp spec fn json_quoted(s: Seq<char>) -> Seq<char>;

/// Relies on `serde_json::to_string` of a `str`: it writes the string as a
/// JSON string literal, and does not fail for a `str`.
#[verifier::external_body]
fn quote(s: &str) -> (r: String)
    ensures
        r@ == json_quoted(s@),
{
    serde_json::to_string(s).unwrap_or_default()
}

/// Name of the instrumentation scope in OTLP documents.
pub const SCOPE_NAME: &'static str = "sigma-telemetry";

/// Version of the instrumentation scope in OTLP documents.
pub const SCOPE_VERSION: &'static str = "0.1.0";

/// `items` joined with `sep` between neighbours.
pub open spec fn joined(items: Seq<Seq<char>>, sep: Seq<char>) -> Seq<char>
    decreases items.len(),
{
    if items.len() == 0 {
        Seq::empty()
    } else if items.len() == 1 {
        items[0]
    } else {
        joined(items.drop_last(), sep) + sep + items.last()
    }
}

proof fn lemma_joined_step(items: Seq<Seq<char>>, sep: Seq<char>, i: int)
    requires
        0 <= i < items.len(),
    ensures
        joined(items.take(i + 1), sep) == (if i == 0 {
            items[0]
        } else {
            joined(items.take(i), sep) + sep + items[i]
        }),
{
    assert(items.take(i + 1).drop_last() =~= items.take(i));
}

/// Attribute pairs as character sequences.
pub open spec fn attrs_view(a: Seq<(String, String)>) -> Seq<(Seq<char>, Seq<char>)> {
    a.map_values(|p: (String, String)| (p.0@, p.1@))
}

/// A duration in nanoseconds written in milliseconds, or `null`.
pub open spec fn duration_ms_text(d: Option<u64>) -> Seq<char> {
    match d {
        Some(n) => fixed_text(n as nat, 6),
        None => "null"@,
    }
}

pub open spec fn pretty_pair(p: (Seq<char>, Seq<char>)) -> Seq<char> {
    "      [\n        "@ + json_quoted(p.0) + ",\n        "@ + json_quoted(p.1) + "\n      ]"@
}

pub open spec fn pretty_attributes(a: Seq<(Seq<char>, Seq<char>)>) -> Seq<char> {
    if a.len() == 0 {
        "[]"@
    } else {
        "[\n"@ + joined(a.map_values(|p: (Seq<char>, Seq<char>)| pretty_pair(p)), ",\n"@)
            + "\n    ]"@
    }
}

/// One exported record in the pretty JSON layout.
pub open spec fn pretty_item(
    name: Seq<char>,
    service: Seq<char>,
    operation: Seq<char>,
    duration: Option<u64>,
    status: Seq<char>,
    attributes: Seq<(Seq<char>, Seq<char>)>,
) -> Seq<char> {
    "  {\n    \"name\": "@ + json_quoted(name) + ",\n    \"service\": "@ + json_quoted(service)
        + ",\n    \"operation\": "@ + json_quoted(operation) + ",\n    \"duration_ms\": "@
        + duration_ms_text(duration) + ",\n    \"status\": "@ + json_quoted(status)
        + ",\n    \"attributes\": "@ + pretty_attributes(attributes) + "\n  }"@
}

pub open spec fn pretty_record(r: SpanRecord) -> Seq<char> {
    pretty_item(
        r.name@,
        r.service@,
        operation_text(r.operation),
        r.duration,
        status_text(r.status),
        attrs_view(r.attributes@),
    )
}

/// The JSON export of `spans`: a pretty-printed array with one object per span.
pub open spec fn json_export_text(spans: Seq<SpanRecord>) -> Seq<char> {
    if spans.len() == 0 {
        "[]"@
    } else {
        "[\n"@ + joined(spans.map_values(|r: SpanRecord| pretty_record(r)), ",\n"@) + "\n]"@
    }
}

/// OTLP status code for a rendered status: 2 (error) when it starts with
/// `error`, else 1 (ok).
pub open spec fn status_code_of(status: Seq<char>) -> u32 {
    if "error"@.is_prefix_of(status) {
        2
    } else {
        1
    }
}

pub open spec fn otlp_attr(p: (Seq<char>, Seq<char>)) -> Seq<char> {
    "{\"key\":"@ + json_quoted(p.0) + ",\"value\":{\"stringValue\":"@ + json_quoted(p.1) + "}}"@
}

/// One OTLP span entry in compact JSON.
pub open spec fn otlp_span_text(
    name: Seq<char>,
    attributes: Seq<(Seq<char>, Seq<char>)>,
    code: u32,
    message: Seq<char>,
    nanos: u64,
) -> Seq<char> {
    "{\"name\":"@ + json_quoted(name) + ",\"kind\":1,\"attributes\":["@ + joined(
        attributes.map_values(|p: (Seq<char>, Seq<char>)| otlp_attr(p)),
        ","@,
    ) + "],\"status\":{\"code\":"@ + decimal_text(code as nat) + ",\"message\":"@ + json_quoted(
        message,
    ) + "},\"durationNanos\":"@ + decimal_text(nanos as nat) + "}"@
}

pub open spec fn otlp_record_text(r: SpanRecord) -> Seq<char> {
    otlp_span_text(
        r.name@,
        attrs_view(r.attributes@),
        status_code_of(status_text(r.status)),
        status_text(r.status),
        match r.duration {
            Some(n) => n,
            None => 0,
        },
    )
}

/// The OTLP resource-spans document for `spans` of service `service`.
pub open spec fn otlp_document_text(service: Seq<char>, spans: Seq<SpanRecord>) -> Seq<char> {
    "{\"resourceSpans\":[{\"resource\":{\"attributes\":[{\"key\":\"service.name\",\"value\":{\"stringValue\":"@
        + json_quoted(service) + "}}]},\"scopeSpans\":[{\"scope\":{\"name\":"@ + json_quoted(
        SCOPE_NAME@,
    ) + ",\"version\":"@ + json_quoted(SCOPE_VERSION@) + "},\"spans\":["@ + joined(
        spans.map_values(|r: SpanRecord| otlp_record_text(r)),
        ","@,
    ) + "]}]}]}"@
}

/// Copies attribute pairs.
fn copy_attributes(a: &Vec<(String, String)>) -> (r: Vec<(String, String)>)
    ensures
        r@ == a@,
{
    let mut out: Vec<(String, String)> = Vec::new();
    let mut i: usize = 0;
    while i < a.len()
        invariant
            0 <= i <= a@.len(),
            out@ == a@.take(i as int),
        decreases a@.len() - i,
    {
        let (k, v) = &a[i];
        out.push((k.clone(), v.clone()));
        assert(out@ =~= a@.take(i as int + 1));
        i = i + 1;
    }
    assert(a@.take(i as int) =~= a@);
    out
}

impl ExportedSpan {
    /// The export shape of a span record.
    pub fn from_record(record: &SpanRecord) -> (r: ExportedSpan)
        ensures
            r.name@ == record.name@,
            r.service@ == record.service@,
            r.operation@ == operation_text(record.operation),
            r.duration_nanos == record.duration,
            r.status@ == status_text(record.status),
            r.attributes@ == record.attributes@,
    {
        ExportedSpan {
            name: record.name.clone(),
            service: record.service.clone(),
            operation: record.operation.to_string(),
            duration_nanos: record.duration,
            status: record.status.to_string(),
            attributes: copy_attributes(&record.attributes),
        }
    }
}

proof fn lemma_status_prefix(status: SpanStatus)
    ensures
        "error"@.is_prefix_of(status_text(status)) <==> status is Error,
{
    reveal_strlit("error");
    reveal_strlit("error: ");
    reveal_strlit("ok");
    reveal_strlit("unset");
    let t = status_text(status);
    let e = "error"@;
    assert(e.len() == 5);
    if let SpanStatus::Error(m) = status {
        assert(t =~= "error: "@ + m@);
        assert(t.subrange(0, 5) =~= e);
    } else if status is Success {
        assert(t == "ok"@);
        assert(t.len() == 2);
    } else {
        assert(t == "unset"@);
        assert(t.subrange(0, 5)[0] != e[0]);
    }
}

impl OtlpSpan {
    /// The OTLP entry of a span record: internal kind, status code 2 for a
    /// failed span and 1 otherwise, duration zero when absent.
    pub fn from_record(record: &SpanRecord) -> (r: OtlpSpan)
        ensures
            r.name@ == record.name@,
            r.kind == 1,
            r.attributes@ == record.attributes@,
            r.status_code == status_code_of(status_text(record.status)),
            r.status_message@ == status_text(record.status),
            r.duration_nanos == match record.duration {
                Some(n) => n,
                None => 0,
            },
    {
        proof {
            lemma_status_prefix(record.status);
        }
        let status_code: u32 = match &record.status {
            SpanStatus::Error(_) => 2,
            _ => 1,
        };
        OtlpSpan {
            name: record.name.clone(),
            kind: 1,
            attributes: copy_attributes(&record.attributes),
            status_code,
            status_message: record.status.to_string(),
            duration_nanos: match record.duration {
                Some(n) => n,
                None => 0,
            },
        }
    }
}

/// Appends the pretty attribute list of an exported span.
fn push_pretty_attributes(out: &mut String, a: &Vec<(String, String)>)
    ensures
        final(out)@ == old(out)@ + pretty_attributes(attrs_view(a@)),
{
    if a.len() == 0 {
        out.append("[]");
        return;
    }
    let ghost items = attrs_view(a@).map_values(|p: (Seq<char>, Seq<char>)| pretty_pair(p));
    let ghost start = out@;
    out.append("[\n");
    let mut i: usize = 0;
    while i < a.len()
        invariant
            0 <= i <= a@.len(),
            items.len() == a@.len(),
            items == attrs_view(a@).map_values(|p: (Seq<char>, Seq<char>)| pretty_pair(p)),
            out@ == start + "[\n"@ + joined(items.take(i as int), ",\n"@),
        decreases a@.len() - i,
    {
        let ghost before = out@;
        if i > 0 {
            out.append(",\n");
        }
        let (k, v) = &a[i];
        out.append("      [\n        ");
        let qk = quote(k.as_str());
        out.append(qk.as_str());
        out.append(",\n        ");
        let qv = quote(v.as_str());
        out.append(qv.as_str());
        out.append("\n      ]");
        proof {
            lemma_joined_step(items, ",\n"@, i as int);
            assert(items[i as int] == pretty_pair((k@, v@)));
            if i == 0 {
                assert(joined(items.take(0), ",\n"@) =~= Seq::<char>::empty());
            }
            assert(out@ =~= start + "[\n"@ + joined(items.take(i + 1), ",\n"@));
        }
        i = i + 1;
    }
    out.append("\n    ]");
    assert(items.take(i as int) =~= items);
}

/// Appends the pretty JSON object of an exported span.
fn push_pretty_span(out: &mut String, e: &ExportedSpan)
    ensures
        final(out)@ == old(out)@ + pretty_item(
            e.name@,
            e.service@,
            e.operation@,
            e.duration_nanos,
            e.status@,
            attrs_view(e.attributes@),
        ),
{
    let ghost start = out@;
    out.append("  {\n    \"name\": ");
    out.append(quote(e.name.as_str()).as_str());
    out.append(",\n    \"service\": ");
    out.append(quote(e.service.as_str()).as_str());
    out.append(",\n    \"operation\": ");
    out.append(quote(e.operation.as_str()).as_str());
    out.append(",\n    \"duration_ms\": ");
    match e.duration_nanos {
        Some(n) => out.append(fixed(n as u128, 6).as_str()),
        None => out.append("null"),
    }
    out.append(",\n    \"status\": ");
    out.append(quote(e.status.as_str()).as_str());
    out.append(",\n    \"attributes\": ");
    push_pretty_attributes(out, &e.attributes);
    out.append("\n  }");
    assert(out@ =~= start + pretty_item(
        e.name@,
        e.service@,
        e.operation@,
        e.duration_nanos,
        e.status@,
        attrs_view(e.attributes@),
    ));
}

/// The pretty JSON export of `spans`.
pub fn json_export(spans: &Vec<SpanRecord>) -> (r: String)
    ensures
        r@ == json_export_text(spans@),
{
    if spans.len() == 0 {
        return String::from_str("[]");
    }
    let ghost items = spans@.map_values(|r: SpanRecord| pretty_record(r));
    let mut out = String::from_str("[\n");
    let mut i: usize = 0;
    while i < spans.len()
        invariant
            0 <= i <= spans@.len(),
            items.len() == spans@.len(),
            items == spans@.map_values(|r: SpanRecord| pretty_record(r)),
            out@ == "[\n"@ + joined(items.take(i as int), ",\n"@),
        decreases spans@.len() - i,
    {
        if i > 0 {
            out.append(",\n");
        }
        let e = ExportedSpan::from_record(&spans[i]);
        push_pretty_span(&mut out, &e);
        proof {
            lemma_joined_step(items, ",\n"@, i as int);
            assert(attrs_view(e.attributes@) == attrs_view(spans@[i as int].attributes@));
            if i == 0 {
                assert(joined(items.take(0), ",\n"@) =~= Seq::<char>::empty());
            }
            assert(out@ =~= "[\n"@ + joined(items.take(i + 1), ",\n"@));
        }
        i = i + 1;
    }
    out.append("\n]");
    assert(items.take(i as int) =~= items);
    out
}

/// Appends the compact OTLP attribute list entries.
fn push_otlp_attributes(out: &mut String, a: &Vec<(String, String)>)
    ensures
        final(out)@ == old(out)@ + joined(
            attrs_view(a@).map_values(|p: (Seq<char>, Seq<char>)| otlp_attr(p)),
            ","@,
        ),
{
    let ghost items = attrs_view(a@).map_values(|p: (Seq<char>, Seq<char>)| otlp_attr(p));
    let ghost start = out@;
    let mut i: usize = 0;
    while i < a.len()
        invariant
            0 <= i <= a@.len(),
            items.len() == a@.len(),
            items == attrs_view(a@).map_values(|p: (Seq<char>, Seq<char>)| otlp_attr(p)),
            out@ == start + joined(items.take(i as int), ","@),
        decreases a@.len() - i,
    {
        if i > 0 {
            out.append(",");
        }
        let (k, v) = &a[i];
        out.append("{\"key\":");
        out.append(quote(k.as_str()).as_str());
        out.append(",\"value\":{\"stringValue\":");
        out.append(quote(v.as_str()).as_str());
        out.append("}}");
        proof {
            lemma_joined_step(items, ","@, i as int);
            assert(items[i as int] == otlp_attr((k@, v@)));
            if i == 0 {
                assert(joined(items.take(0), ","@) =~= Seq::<char>::empty());
            }
            assert(out@ =~= start + joined(items.take(i + 1), ","@));
        }
        i = i + 1;
    }
    assert(items.take(i as int) =~= items);
    assert(out@ =~= start + joined(items, ","@));
}

/// Appends the compact JSON of one OTLP span entry.
fn push_otlp_span(out: &mut String, s: &OtlpSpan)
    requires
        s.kind == 1,
    ensures
        final(out)@ == old(out)@ + otlp_span_text(
            s.name@,
            attrs_view(s.attributes@),
            s.status_code,
            s.status_message@,
            s.duration_nanos,
        ),
{
    let ghost start = out@;
    out.append("{\"name\":");
    out.append(quote(s.name.as_str()).as_str());
    out.append(",\"kind\":1,\"attributes\":[");
    push_otlp_attributes(out, &s.attributes);
    out.append("],\"status\":{\"code\":");
    out.append(decimal(s.status_code as u128).as_str());
    out.append(",\"message\":");
    out.append(quote(s.status_message.as_str()).as_str());
    out.append("},\"durationNanos\":");
    out.append(decimal(s.duration_nanos as u128).as_str());
    out.append("}");
    assert(out@ =~= start + otlp_span_text(
        s.name@,
        attrs_view(s.attributes@),
        s.status_code,
        s.status_message@,
        s.duration_nanos,
    ));
}

/// The compact OTLP resource-spans document for `spans` of `service`.
pub fn otlp_document(service: &str, spans: &Vec<SpanRecord>) -> (r: String)
    ensures
        r@ == otlp_document_text(service@, spans@),
{
    let ghost items = spans@.map_values(|r: SpanRecord| otlp_record_text(r));
    let mut out = String::from_str(
        "{\"resourceSpans\":[{\"resource\":{\"attributes\":[{\"key\":\"service.name\",\"value\":{\"stringValue\":",
    );
    out.append(quote(service).as_str());
    out.append("}}]},\"scopeSpans\":[{\"scope\":{\"name\":");
    out.append(quote(SCOPE_NAME).as_str());
    out.append(",\"version\":");
    out.append(quote(SCOPE_VERSION).as_str());
    out.append("},\"spans\":[");
    let ghost head = out@;
    let mut i: usize = 0;
    while i < spans.len()
        invariant
            0 <= i <= spans@.len(),
            items.len() == spans@.len(),
            items == spans@.map_values(|r: SpanRecord| otlp_record_text(r)),
            out@ == head + joined(items.take(i as int), ","@),
        decreases spans@.len() - i,
    {
        if i > 0 {
            out.append(",");
        }
        let entry = OtlpSpan::from_record(&spans[i]);
        push_otlp_span(&mut out, &entry);
        proof {
            lemma_joined_step(items, ","@, i as int);
            assert(attrs_view(entry.attributes@) == attrs_view(spans@[i as int].attributes@));
            if i == 0 {
                assert(joined(items.take(0), ","@) =~= Seq::<char>::empty());
            }
            assert(out@ =~= head + joined(items.take(i + 1), ","@));
        }
        i = i + 1;
    }
    out.append("]}]}]}");
    assert(items.take(i as int) =~= items);
    assert(out@ =~= otlp_document_text(service@, spans@));
    out
}

/// The endpoint that OTLP documents are posted to.
pub open spec fn traces_endpoint(otlp_endpoint: Seq<char>) -> Seq<char> {
    otlp_endpoint + "/v1/traces"@
}

/// The result of an OTLP export, given how the post ended.
pub open spec fn post_result(
    span_count: nat,
    endpoint: Seq<char>,
    outcome: PostOutcome,
    r: Result<String, TelemetryError>,
) -> bool {
    match outcome {
        PostOutcome::Responded { code, reason, body } => if 200 <= code <= 299 {
            r is Ok && r->Ok_0@ == "Exported "@ + decimal_text(span_count) + " spans to "@ + endpoint
        } else {
            r is Err && r->Err_0 is ExportError && r->Err_0->ExportError_0@ == "OTLP endpoint returned "@
                + decimal_text(code as nat) + " "@ + reason@ + ": "@ + body@
        },
        PostOutcome::Failed(cause) => r is Err && r->Err_0 is ExportError
            && r->Err_0->ExportError_0@ == "Failed to reach OTLP endpoint "@ + endpoint + ": "@
            + cause@,
    }
}

impl Exporter {
    pub closed spec fn format_spec(&self) -> ExportFormat {
        self.format
    }

    pub closed spec fn config_spec(&self) -> TelemetryConfig {
        self.config
    }

    pub fn new(config: TelemetryConfig, format: ExportFormat) -> (r: Self)
        ensures
            r.config_spec() == config,
            r.format_spec() == format,
    {
        Exporter { config, format }
    }

    /// The first step of an export. For JSON and stdout it is the pretty JSON
    /// text of the spans; for OTLP, the compact resource-spans document to
    /// post to `<otlp_endpoint>/v1/traces`.
    pub fn prepare(&self, spans: &Vec<SpanRecord>) -> (r: ExportRequest)
        ensures
            self.format_spec() != ExportFormat::Otlp ==> r is Text && r->Text_0@ == json_export_text(
                spans@,
            ),
            self.format_spec() == ExportFormat::Otlp ==> r is Post && r->endpoint@
                == traces_endpoint(self.config_spec().otlp_endpoint@) && r->body@
                == otlp_document_text(self.config_spec().service_name@, spans@) && r->span_count
                == spans@.len(),
    {
        match self.format {
            ExportFormat::Json | ExportFormat::Stdout => ExportRequest::Text(json_export(spans)),
            ExportFormat::Otlp => {
                let mut endpoint = self.config.otlp_endpoint.clone();
                endpoint.append("/v1/traces");
                ExportRequest::Post {
                    endpoint,
                    body: otlp_document(self.config.service_name.as_str(), spans),
                    span_count: spans.len(),
                }
            },
        }
    }

    /// The last step of an OTLP export: success for a 2xx answer, otherwise
    /// an export error naming the status code, reason and body, or the
    /// endpoint and cause.
    pub fn complete(span_count: usize, endpoint: &str, outcome: PostOutcome) -> (r: Result<
        String,
        TelemetryError,
    >)
        ensures
            post_result(span_count as nat, endpoint@, outcome, r),
    {
        match outcome {
            PostOutcome::Responded { code, reason, body } => {
                if 200 <= code && code <= 299 {
                    let mut m = String::from_str("Exported ");
                    m.append(decimal(span_count as u128).as_str());
                    m.append(" spans to ");
                    m.append(endpoint);
                    Ok(m)
                } else {
                    let mut m = String::from_str("OTLP endpoint returned ");
                    m.append(decimal(code as u128).as_str());
                    m.append(" ");
                    m.append(reason.as_str());
                    m.append(": ");
                    m.append(body.as_str());
                    Err(TelemetryError::ExportError(m))
                }
            },
            PostOutcome::Failed(cause) => {
                let mut m = String::from_str("Failed to reach OTLP endpoint ");
                m.append(endpoint);
                m.append(": ");
                m.append(cause.as_str());
                Err(TelemetryError::ExportError(m))
            },
        }
    }
}

/// In an OTLP document a failed span carries status code 2 and any other
/// span status code 1; `durationNanos` is the span's duration in nanoseconds,
/// zero when it has none.
pub proof fn lemma_otlp_status_and_duration(record: SpanRecord)
    ensures
        status_code_of(status_text(record.status)) == (if record.status is Error {
            2u32
        } else {
            1u32
        }),
        otlp_record_text(record) == otlp_span_text(
            record.name@,
            attrs_view(record.attributes@),
            if record.status is Error {
                2u32
            } else {
                1u32
            },
            status_text(record.status),
            match record.duration {
                Some(n) => n,
                None => 0,
            },
        ),
{
    lemma_status_prefix(record.status);
}

} // verus!
