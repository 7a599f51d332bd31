//! Type-tagged envelopes: a payload record travels together with its declared
//! type name, and is accepted back only under the name it declares.
mod probe;
mod request;
mod laws;

pub use probe::{declared_name, probe_result, structural_name, NamedAggregate, NotStruct, SerializeOp, NOT_STRUCT_MESSAGE};
pub use request::{apply_entries, classify_key, decode_entries, encoded_entries, DecodeError, RequestFields, WireEntry, field_of_key, key_of, Request, RequestField, DATA_FIELD, FIELD_COUNT, RECORD_NAME, TYPE_FIELD};
pub use laws::{all_ignored, lemma_field_order_irrelevant, lemma_name_stability, lemma_non_records_rejected, lemma_round_trip, lemma_tampered_tag_rejected, lemma_unknown_field_ignored};
