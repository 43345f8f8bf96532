use vstd::prelude::*;

use crate::error::Error;
use crate::language::Language;
use crate::language::parse_language;
use crate::text::clone_string;

verus! {

/// A segment record as the external model reported it: each required field
/// is either present or missing. Times are the bit patterns of IEEE 754
/// single-precision values, in seconds; this layer never interprets them.
#[derive(Clone, Debug)]
pub struct RawSegment {
    pub text: Option<String>,
    pub start: Option<u32>,
    pub end: Option<u32>,
}

/// A transcription response as the external model reported it, before
/// validation: each required top-level field is either present or missing.
#[derive(Clone, Debug)]
pub struct RawTranscription {
    pub text: Option<String>,
    pub segments: Option<Vec<RawSegment>>,
    pub language: Option<String>,
}

/// A time-stamped span of the transcript. `start` and `end` hold the bit
/// patterns of the times in seconds (IEEE 754 single precision), trusted
/// from the external source; `end >= start` is expected but not checked
/// by this layer.
#[derive(Clone, Debug, PartialEq)]
pub struct Segment {
    pub text: String,
    pub start: u32,
    pub end: u32,
}

/// The typed result of a transcription: full text, chronological segments
/// exactly as reported, and the language used or detected. Constructed
/// only by the validating conversion `Transcription::from_raw`.
#[derive(Clone, Debug, PartialEq)]
pub struct Transcription {
    pub text: String,
    pub segments: Vec<Segment>,
    pub language: Language,
}

impl RawSegment {
    /// All three required per-segment fields are present.
    pub open spec fn is_complete(self) -> bool {
        &&& self.text is Some
        &&& self.start is Some
        &&& self.end is Some
    }
}

/// The first missing per-segment field, in the order the conversion reads
/// them: each segment's text, start and end, segment by segment.
pub open spec fn first_missing_segment_field(segs: Seq<RawSegment>) -> Option<Seq<char>>
    decreases segs.len(),
{
    if segs.len() == 0 {
        None
    } else if segs[0].text is None {
        Some("segment text"@)
    } else if segs[0].start is None {
        Some("segment start"@)
    } else if segs[0].end is None {
        Some("segment end"@)
    } else {
        first_missing_segment_field(segs.drop_first())
    }
}

impl RawTranscription {
    /// The first missing required field, in the order the conversion reads
    /// them; `None` when the response is complete.
    pub open spec fn first_missing_field(self) -> Option<Seq<char>> {
        if self.text is None {
            Some("text"@)
        } else if self.segments is None {
            Some("segments"@)
        } else if first_missing_segment_field(self.segments.unwrap()@) is Some {
            first_missing_segment_field(self.segments.unwrap()@)
        } else if self.language is None {
            Some("language"@)
        } else {
            None
        }
    }

    /// Every required field, top-level and per segment, is present.
    pub open spec fn is_complete(self) -> bool {
        self.first_missing_field() is None
    }
}

/// How a converted segment corresponds to its raw record: the same text
/// and the same times, bit for bit.
pub open spec fn segment_matches(raw: RawSegment, out: Segment) -> bool {
    &&& out.text@ == raw.text.unwrap()@
    &&& out.start == raw.start.unwrap()
    &&& out.end == raw.end.unwrap()
}

/// The converted segments correspond to the raw records one for one, in
/// the order the external model reported them.
pub open spec fn segments_match(raw: Seq<RawSegment>, out: Seq<Segment>) -> bool {
    &&& out.len() == raw.len()
    &&& forall|i: int| 0 <= i < raw.len() ==> segment_matches(raw[i], #[trigger] out[i])
}

/// How a `Transcription` corresponds to a complete raw response: same text,
/// matching segments in the same order, and the language the response's
/// language string parses to.
pub open spec fn transcription_matches(raw: RawTranscription, out: Transcription) -> bool {
    &&& out.text@ == raw.text.unwrap()@
    &&& segments_match(raw.segments.unwrap()@, out.segments@)
    &&& parse_language(raw.language.unwrap()@) == Some(out.language)
}

/// If the first `k` segments are complete, the first missing field of the
/// whole sequence is the first missing field of the rest.
proof fn lemma_first_missing_after(segs: Seq<RawSegment>, k: int)
    requires
        0 <= k <= segs.len(),
        forall|j: int| 0 <= j < k ==> (#[trigger] segs[j]).is_complete(),
    ensures
        first_missing_segment_field(segs) == first_missing_segment_field(segs.skip(k)),
    decreases k,
{
    if k == 0 {
        assert(segs.skip(0) =~= segs);
    } else {
        assert(segs[0].is_complete());
        assert forall|j: int| 0 <= j < k - 1 implies (#[trigger] segs.drop_first()[j]).is_complete() by {
            assert(segs[j + 1].is_complete());
        }
        lemma_first_missing_after(segs.drop_first(), k - 1);
        assert(segs.drop_first().skip(k - 1) =~= segs.skip(k));
    }
}

impl Transcription {
    /// Validating conversion from the raw response. Reads `text`, then the
    /// segments (each segment's text, start and end), then `language`;
    /// the first missing field aborts the conversion with `MissingResult`
    /// naming it, and a language outside the closed set aborts it with
    /// `InvalidLanguageString`. No partial result is ever produced.
    pub fn from_raw(raw: RawTranscription) -> (r: Result<Transcription, Error>)
        ensures
            match r {
                Ok(t) => raw.is_complete() && transcription_matches(raw, t),
                Err(e) => match e {
                    Error::MissingResult(f) => raw.first_missing_field() == Some(f@),
                    Error::InvalidLanguageString(s) => {
                        &&& raw.is_complete()
                        &&& raw.language matches Some(x) && s@ == x@
                        &&& parse_language(s@) is None
                    },
                    _ => false,
                },
            },
            r is Ok <==> (raw.is_complete() && parse_language(raw.language.unwrap()@) is Some),
    {
        let RawTranscription { text: text_opt, segments: segments_opt, language: language_opt } =
            raw;
        let text = match text_opt {
            Some(t) => t,
            None => {
                return Err(Error::MissingResult("text"));
            },
        };
        let raw_segments = match segments_opt {
            Some(s) => s,
            None => {
                return Err(Error::MissingResult("segments"));
            },
        };
        let mut segments: Vec<Segment> = Vec::new();
        let mut i: usize = 0;
        while i < raw_segments.len()
            invariant
                i <= raw_segments@.len(),
                forall|k: int| 0 <= k < i ==> (#[trigger] raw_segments@[k]).is_complete(),
                segments_match(raw_segments@.take(i as int), segments@),
                raw.text == Some(text),
                raw.segments == Some(raw_segments),
                raw.language == language_opt,
            decreases raw_segments@.len() - i,
        {
            let seg = &raw_segments[i];
            let seg_text = match &seg.text {
                Some(t) => clone_string(t),
                None => {
                    proof {
                        lemma_first_missing_after(raw_segments@, i as int);
                    }
                    return Err(Error::MissingResult("segment text"));
                },
            };
            let seg_start = match seg.start {
                Some(v) => v,
                None => {
                    proof {
                        lemma_first_missing_after(raw_segments@, i as int);
                    }
                    return Err(Error::MissingResult("segment start"));
                },
            };
            let seg_end = match seg.end {
                Some(v) => v,
                None => {
                    proof {
                        lemma_first_missing_after(raw_segments@, i as int);
                    }
                    return Err(Error::MissingResult("segment end"));
                },
            };
            segments.push(Segment { text: seg_text, start: seg_start, end: seg_end });
            i = i + 1;
            proof {
                assert(raw_segments@.take(i as int) =~= raw_segments@.take(i as int - 1).push(
                    raw_segments@[i as int - 1],
                ));
            }
        }
        proof {
            lemma_first_missing_after(raw_segments@, raw_segments@.len() as int);
            assert(raw_segments@.take(raw_segments@.len() as int) =~= raw_segments@);
        }
        let lang_string = match language_opt {
            Some(s) => s,
            None => {
                return Err(Error::MissingResult("language"));
            },
        };
        let language = match Language::from_string(lang_string.as_str()) {
            Ok(l) => l,
            Err(e) => {
                return Err(e);
            },
        };
        Ok(Transcription { text, segments, language })
    }
}

} // verus!
