//! Batch generation of unique identifiers.
//!
//! Each public `gen_*` function produces a batch of `n` identifier strings of
//! one kind: UUID variants, ULID, NanoID, CUID, NUID, Snowflake, Sonyflake,
//! UPID, TSID, ObjectId and SCRU128. The batching, the validation of the
//! parameters and the decimal rendering of numeric identifiers are verified;
//! each identifier format's own generation is delegated to its library behind
//! a trusted wrapper.

pub mod batch;
pub mod decimal;
pub mod dispatch;
pub mod other_ids;
pub mod uuid_ids;

pub use batch::IdError;
pub use batch::all_text_lens;
pub use batch::all_texts_are;
pub use batch::base36_lower_text;
pub use batch::base62_text;
pub use batch::crockford_text;
pub use batch::join_lines;
pub use batch::join_texts;
pub use batch::lemma_fixed_batch_pairwise_equal;
pub use batch::lex_less;
pub use batch::lex_sorted_distinct;
pub use batch::lower_hex_text;
pub use batch::url_safe_text;
pub use decimal::dec_text;
pub use decimal::dec_text_signed;
pub use decimal::i64_dec_string;
pub use decimal::u64_dec_string;
pub use dispatch::IdKind;
pub use dispatch::batch_meets_kind;
pub use dispatch::expected_len;
pub use dispatch::generate;
pub use dispatch::may_fail;
pub use dispatch::uses_name;
pub use other_ids::dec_text_of_some_i64;
pub use other_ids::dec_text_of_some_u64;
pub use other_ids::crockford_digit;
pub use other_ids::crockford_groups;
pub use other_ids::lemma_ulid_text_order;
pub use other_ids::monotonic_sonyflake_batch;
pub use other_ids::monotonic_ulid_batch;
pub use other_ids::ulid_text_of;
pub use other_ids::gen_cuid;
pub use other_ids::gen_cuid2;
pub use other_ids::gen_nano_id;
pub use other_ids::gen_nuid;
pub use other_ids::gen_object_id;
pub use other_ids::gen_scru128;
pub use other_ids::gen_short_uuid;
pub use other_ids::gen_snowflake;
pub use other_ids::gen_sonyflake;
pub use other_ids::gen_tsid;
pub use other_ids::gen_ulid;
pub use other_ids::gen_upid;
pub use uuid_ids::gen_max_uuid;
pub use uuid_ids::gen_nil_uuid;
pub use uuid_ids::gen_uuid_v1;
pub use uuid_ids::gen_uuid_v3;
pub use uuid_ids::gen_uuid_v4;
pub use uuid_ids::gen_uuid_v5;
pub use uuid_ids::gen_uuid_v6;
pub use uuid_ids::gen_uuid_v7;
pub use uuid_ids::fixed_node_group_text;
pub use uuid_ids::hex_char;
pub use uuid_ids::hyphenated_of_some;
pub use uuid_ids::hyphenated_uuid_text;
pub use uuid_ids::max_uuid_text;
pub use uuid_ids::nil_uuid_text;
pub use uuid_ids::uuid_hyphenated;
pub use uuid_ids::uuid_parse;
pub use uuid_ids::uuid_text_with_version;
pub use uuid_ids::uuid_v3_value;
pub use uuid_ids::uuid_v5_value;
pub use uuid_ids::v3_of_some_namespace;
pub use uuid_ids::v5_of_some_namespace;
