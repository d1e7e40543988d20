//! The ingestion pipeline.
//!
//! Raw delimited-text bytes are turned into a typed columnar object:
//! a column schema is inferred from a bounded sample of rows (the
//! first 100, with the first row always treated as the header), the
//! whole input is then decoded under that schema, and the decoded
//! batches are encoded into a single columnar container.  Any
//! row-level decode error aborts the whole ingestion — the caller
//! receives no payload, so nothing partial is ever persisted.  The
//! container is named `<contentKey>.arrow` after the caller-supplied
//! content key.
//!
//! The schema inference, row decoding and container encoding are done
//! by the arrow crate; each call stands behind a trusted wrapper.
//! Inference and decoding are deterministic functions of the input
//! bytes and the settled parser settings, so their contracts are keyed
//! on those two values alone.

use vstd::prelude::*;
use vstd::string::*;
use crate::config::{CsvConfig, ParserSettings, SettingsView, parser_settings, spec_settings};

verus! {

/// arrow's description of a delimited-text format, opaque here.  It
/// is built from settled parser settings and drives both schema
/// inference and row decoding.
#[verifier::external_type_specification]
#[verifier::external_body]
pub struct ExFormat(arrow::csv::reader::Format);

/// Why an ingestion failed: schema inference failed on the sample, or
/// a row failed to decode under the inferred schema.  The message
/// carries the underlying report verbatim.  Encoding the decoded
/// batches cannot fail: the container encoder over an in-memory
/// buffer rejects only nested dictionary types, which delimited-text
/// inference never produces.
#[derive(Debug, PartialEq)]
pub enum IngestError {
    Infer { message: String },
    Decode { message: String },
}

/// One inferred column: its name, taken from the header row, and the
/// rendered name of its inferred logical type.
#[derive(Debug, Clone, PartialEq)]
pub struct ColumnDesc {
    pub name: String,
    pub data_type: String,
}

/// The spec-level shape of a `ColumnDesc`.
pub struct ColumnView {
    pub name: Seq<char>,
    pub data_type: Seq<char>,
}

impl View for ColumnDesc {
    type V = ColumnView;

    open spec fn view(&self) -> ColumnView {
        ColumnView { name: self.name@, data_type: self.data_type@ }
    }
}

/// What a successful ingestion hands back: the inferred schema, the
/// name the columnar object is to be persisted under, and the encoded
/// container itself.  The caller persists `payload` under
/// `object_name` in the data root.
#[derive(Debug)]
pub struct IngestOutput {
    pub columns: Vec<ColumnDesc>,
    pub object_name: String,
    pub payload: Vec<u8>,
}

/// The settled parser settings a format description was built from.
pub uninterp spec fn format_settings(f: arrow::csv::reader::Format) -> SettingsView;

/// The column schema that arrow infers from the first 100 rows of
/// `bytes` under `settings`, with the first row as header; nothing
/// when inference fails.  Inference reads only the input and the
/// settings, so this is a function of the two.
pub uninterp spec fn inferred_columns(bytes: Seq<u8>, settings: SettingsView) -> Option<
    Seq<ColumnView>,
>;

/// Whether the whole of `bytes` decodes under `settings` and the
/// schema inferred from them.  Decoding reads only the input and the
/// settings, so this is a function of the two.
pub uninterp spec fn csv_decodes(bytes: Seq<u8>, settings: SettingsView) -> bool;

/// A decoded input, held for the container encoder: arrow's inferred
/// schema and the decoded batches.  Opaque to the verifier; the
/// batches are reached only by index through the wrappers below.
#[verifier::external_body]
pub struct DecodedCsv {
    schema: std::sync::Arc<arrow::datatypes::Schema>,
    batches: Vec<arrow::array::RecordBatch>,
}

/// How many decoded batches a `DecodedCsv` holds.
pub uninterp spec fn batch_count_of(d: DecodedCsv) -> nat;

/// The input a `DecodedCsv` was decoded from: the raw bytes and the
/// settled settings.
pub uninterp spec fn csv_source(d: DecodedCsv) -> (Seq<u8>, SettingsView);

/// A columnar container in the middle of being written.  Opaque to
/// the verifier; its progress is tracked by the two names below.
#[verifier::external_body]
pub struct ContainerWriter {
    inner: arrow::ipc::writer::FileWriter<Vec<u8>>,
}

/// The input whose batches a container writer is encoding.
pub uninterp spec fn writer_source(w: ContainerWriter) -> (Seq<u8>, SettingsView);

/// How many batches have been written to a container writer so far.
pub uninterp spec fn written_count(w: ContainerWriter) -> nat;

/// The complete columnar container that encodes the rows of `bytes`
/// decoded under `settings`: header, one message per batch in order,
/// footer.  The encoding is deterministic in the two — the schema and
/// batches are functions of them, and the encoder holds no dictionary
/// or compression state — so this is a function of the two.
pub uninterp spec fn ipc_payload(bytes: Seq<u8>, settings: SettingsView) -> Seq<u8>;

/// Relies on arrow's `csv::reader::Format` builder methods: the
/// format carries exactly the settled settings — header on, the
/// settled delimiter and truncated-rows flag, and quote, comment,
/// escape and null pattern only when present.  Settled settings hold
/// only patterns that compile, so the guard on the pattern never
/// rejects one here.
#[verifier::external_body]
fn make_format(s: &ParserSettings) -> (f: arrow::csv::reader::Format)
    ensures
        format_settings(f) == s@,
{
    let mut format = arrow::csv::reader::Format::default()
        .with_header(true).with_delimiter(s.delimiter).with_truncated_rows(s.truncated);
    if let Some(q) = s.quote { format = format.with_quote(q); }
    if let Some(c) = s.comment { format = format.with_comment(c); }
    if let Some(e) = s.escape { format = format.with_escape(e); }
    if let Some(p) = &s.null_regex {
        if let Ok(re) = regex::Regex::new(p) { format = format.with_null_regex(re); }
    }
    format
}

/// Relies on arrow's `Format::infer_schema` over the first 100 rows:
/// deterministic in the input and the format's settings, it returns
/// the inferred columns exactly when inference succeeds.  The input
/// is read from memory, so no other failure source exists.
#[verifier::external_body]
fn infer_schema_columns(f: &arrow::csv::reader::Format, bytes: &Vec<u8>) -> (r: Result<
    Vec<ColumnDesc>,
    IngestError,
>)
    ensures
        r matches Ok(columns) ==> inferred_columns(bytes@, format_settings(*f)) == Some(
            columns@.map_values(|c: ColumnDesc| c@),
        ),
        r is Ok <==> inferred_columns(bytes@, format_settings(*f)) is Some,
        r matches Err(e) ==> e matches IngestError::Infer { .. },
{
    let (schema, _) = f.infer_schema(std::io::Cursor::new(bytes), Some(100)).map_err(
        |e| IngestError::Infer { message: format!("{e}") },
    )?;
    let columns = schema.fields().iter().map(
        |fd| ColumnDesc { name: fd.name().clone(), data_type: format!("{}", fd.data_type()) },
    ).collect();
    Ok(columns)
}

/// Relies on arrow's `Format::infer_schema` and `csv::ReaderBuilder`:
/// the whole input is decoded, row by row, under the schema inferred
/// from it.  Inference is deterministic, so deriving the schema here
/// again yields exactly the one the column listing reported.  The
/// input is read from memory, so the call fails exactly when
/// inference fails or some row does not decode.
#[verifier::external_body]
fn decode_batches(f: &arrow::csv::reader::Format, bytes: &Vec<u8>) -> (r: Result<
    DecodedCsv,
    IngestError,
>)
    ensures
        r is Ok <==> (inferred_columns(bytes@, format_settings(*f)) is Some && csv_decodes(
            bytes@,
            format_settings(*f),
        )),
        r matches Ok(d) ==> csv_source(d) == (bytes@, format_settings(*f)),
        r matches Err(e) ==> match e {
            IngestError::Infer { .. } => inferred_columns(bytes@, format_settings(*f)) is None,
            IngestError::Decode { .. } => inferred_columns(bytes@, format_settings(*f)) is Some
                && !csv_decodes(bytes@, format_settings(*f)),
        },
{
    let (schema, _) = f.infer_schema(std::io::Cursor::new(bytes), Some(100)).map_err(
        |e| IngestError::Infer { message: format!("{e}") },
    )?;
    let schema = std::sync::Arc::new(schema);
    let reader = arrow::csv::ReaderBuilder::new(schema.clone()).with_format(f.clone()).build(
        std::io::Cursor::new(bytes),
    ).map_err(|e| IngestError::Decode { message: format!("{e}") })?;
    let batches = reader.collect::<Result<Vec<_>, _>>().map_err(
        |e| IngestError::Decode { message: format!("{e}") },
    )?;
    Ok(DecodedCsv { schema, batches })
}

/// Relies on `Vec::len` over the held batches.
#[verifier::external_body]
fn batch_count(d: &DecodedCsv) -> (n: usize)
    ensures
        n == batch_count_of(*d),
{
    d.batches.len()
}

/// Relies on arrow's `ipc::writer::IpcWriteOptions::try_new` and
/// `FileWriter::try_new_with_options`: 8-byte alignment and the
/// current metadata version are accepted, and creation over an
/// in-memory buffer — which writes the container's magic marker and
/// schema message — rejects only schemas holding nested dictionary
/// types, which delimited-text inference never produces.  The fresh
/// writer encodes the source of `d` and holds no batches yet.
#[verifier::external_body]
fn ipc_writer_new(d: &DecodedCsv) -> (w: ContainerWriter)
    ensures
        writer_source(w) == csv_source(*d),
        written_count(w) == 0,
{
    let options = arrow::ipc::writer::IpcWriteOptions::try_new(
        8,
        false,
        arrow::ipc::MetadataVersion::V5,
    ).expect("8-byte alignment and the current metadata version are accepted");
    let inner = arrow::ipc::writer::FileWriter::try_new_with_options(
        Vec::new(),
        &d.schema,
        options,
    ).expect("an inferred schema holds no nested dictionary type");
    ContainerWriter { inner }
}

/// Relies on arrow's `ipc::writer::FileWriter::write`: it appends the
/// next batch — the one at `i` — to the container.  For the primitive
/// columns delimited-text inference produces there is no failing
/// path: no dictionaries, no compression, and the in-memory buffer
/// cannot fail.
#[verifier::external_body]
fn ipc_write_nth(writer: &mut ContainerWriter, d: &DecodedCsv, i: usize)
    requires
        writer_source(*old(writer)) == csv_source(*d),
        i == written_count(*old(writer)),
        i < batch_count_of(*d),
    ensures
        writer_source(*final(writer)) == writer_source(*old(writer)),
        written_count(*final(writer)) == written_count(*old(writer)) + 1,
{
    writer.inner.write(&d.batches[i]).expect(
        "a batch of primitive columns encodes without error into memory",
    );
}

/// Relies on arrow's `ipc::writer::FileWriter::into_inner`: it writes
/// the container footer and hands back the buffer.  With every batch
/// of its source written in order, the buffer is exactly the
/// container encoding of that source, and it opens with the magic
/// marker, so it is never empty.  The footer is metadata over an
/// in-memory buffer, so there is no failing path.
#[verifier::external_body]
fn ipc_finish(writer: ContainerWriter, d: &DecodedCsv) -> (payload: Vec<u8>)
    requires
        writer_source(writer) == csv_source(*d),
        written_count(writer) == batch_count_of(*d),
    ensures
        payload@ == ipc_payload(csv_source(*d).0, csv_source(*d).1),
        payload@.len() > 0,
{
    writer.inner.into_inner().expect("the container footer encodes without error into memory")
}

/// Ingest raw delimited-text bytes under a caller-supplied
/// configuration and content key.
///
/// The call succeeds exactly when the input's schema infers and every
/// row decodes under it.  On success, the returned columns are
/// exactly the schema arrow infers from the input under the settled
/// settings, the object name is `<content_key>.arrow`, and the
/// payload is the complete, non-empty container encoding of the
/// decoded input — what a later content read of the persisted object
/// serves.  An `Infer` or `Decode` error comes exactly when inference
/// or decoding fails; on any error there is no payload, so a failed
/// ingestion persists nothing.
pub fn ingest(bytes: &Vec<u8>, config: &CsvConfig, content_key: &str) -> (r: Result<
    IngestOutput,
    IngestError,
>)
    ensures
        r is Ok <==> (inferred_columns(bytes@, spec_settings(config@)) is Some && csv_decodes(
            bytes@,
            spec_settings(config@),
        )),
        r matches Ok(out) ==> {
            &&& inferred_columns(bytes@, spec_settings(config@)) == Some(
                out.columns@.map_values(|c: ColumnDesc| c@),
            )
            &&& out.object_name@ == content_key@ + ".arrow"@
            &&& out.payload@ == ipc_payload(bytes@, spec_settings(config@))
            &&& out.payload@.len() > 0
        },
        r matches Err(e) ==> match e {
            IngestError::Infer { .. } => inferred_columns(bytes@, spec_settings(config@)) is None,
            IngestError::Decode { .. } => inferred_columns(bytes@, spec_settings(config@)) is Some
                && !csv_decodes(bytes@, spec_settings(config@)),
        },
{
    let settings = parser_settings(config);
    let format = make_format(&settings);
    let columns = infer_schema_columns(&format, bytes)?;
    let data = decode_batches(&format, bytes)?;
    let mut writer = ipc_writer_new(&data);
    let n = batch_count(&data);
    let mut i: usize = 0;
    while i < n
        invariant
            n == batch_count_of(data),
            csv_source(data) == (bytes@, settings@),
            writer_source(writer) == csv_source(data),
            written_count(writer) == i,
            i <= n,
        decreases n - i,
    {
        ipc_write_nth(&mut writer, &data, i);
        i = i + 1;
    }
    let payload = ipc_finish(writer, &data);
    let mut object_name = content_key.to_owned();
    object_name.append(".arrow");
    Ok(IngestOutput { columns, object_name, payload })
}

} // verus!
