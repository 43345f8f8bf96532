mod error;
mod language;
mod model;
mod text;
mod transcription;

pub use error::Error;
pub use language::Language;
pub use language::lemma_canonical_names_distinct;
pub use language::lemma_language_round_trip;
pub use language::parse_language;
pub use model::Device;
pub use model::Model;
pub use model::ModelSize;
pub use model::dict_list_entry;
pub use model::language_bag_matches;
pub use model::load_bag_matches;
pub use model::load_bag_strings;
pub use model::no_written_bools;
pub use model::no_written_strings;
pub use model::opt_dicts_view;
pub use model::opt_str_view;
pub use model::raw_response_read;
pub use model::raw_segment_read;
pub use model::string_entry;
pub use model::time_entry;
pub use model::written_bools;
pub use model::written_strings;
pub use text::decimal_rep;
pub use text::digit_char;
pub use transcription::RawSegment;
pub use transcription::RawTranscription;
pub use transcription::Segment;
pub use transcription::Transcription;
pub use transcription::first_missing_segment_field;
pub use transcription::segment_matches;
pub use transcription::segments_match;
pub use transcription::transcription_matches;
