use vstd::prelude::*;
use vstd::string::StringExecFns;

use crate::error::Error;
use crate::language::Language;
use crate::language::parse_language;
use crate::text::decimal_rep;
use crate::text::usize_decimal;
use crate::transcription::RawSegment;
use crate::transcription::RawTranscription;
use crate::transcription::Transcription;
use crate::transcription::transcription_matches;

verus! {

/// Declares pyo3's owned, interpreter-lifetime reference type; a value of
/// `Py<T>` is opaque to the verifier and only carried through.
#[verifier::external_type_specification]
#[verifier::external_body]
#[verifier::reject_recursive_types(T)]
pub struct ExPy<T>(pyo3::Py<T>);

/// Declares pyo3's `PyAny`, the type of an arbitrary Python object.
#[verifier::external_type_specification]
#[verifier::external_body]
pub struct ExPyAny(pyo3::PyAny);

/// Declares pyo3's `PyDict`, the type of a Python dictionary.
#[verifier::external_type_specification]
#[verifier::external_body]
pub struct ExPyDict(pyo3::types::PyDict);

/// The string-valued entries a configuration dictionary holds, keyed by
/// their keys; names what `py_dict_new` and the two setters below wrote.
pub uninterp spec fn written_strings(d: pyo3::Py<pyo3::types::PyDict>) -> Map<Seq<char>, Seq<char>>;

/// The boolean-valued entries a configuration dictionary holds; the
/// companion of `written_strings` for the other value type this crate
/// ever writes.
pub uninterp spec fn written_bools(d: pyo3::Py<pyo3::types::PyDict>) -> Map<Seq<char>, bool>;

/// What reading a response entry under `key` as a string yields whenever
/// the read succeeds: the string, or `None` for an absent key. A fixed
/// function of the dictionary value, which this crate never mutates.
pub uninterp spec fn string_entry(d: pyo3::Py<pyo3::types::PyDict>, key: Seq<char>) -> Option<
    Seq<char>,
>;

/// What reading a response entry under `key` as a list of dictionaries
/// yields whenever the read succeeds; `None` for an absent key.
pub uninterp spec fn dict_list_entry(d: pyo3::Py<pyo3::types::PyDict>, key: Seq<char>) -> Option<
    Seq<pyo3::Py<pyo3::types::PyDict>>,
>;

/// What reading a response entry under `key` as a time yields whenever
/// the read succeeds: the IEEE 754 single-precision bit pattern of its
/// value, or `None` for an absent key.
pub uninterp spec fn time_entry(d: pyo3::Py<pyo3::types::PyDict>, key: Seq<char>) -> Option<u32>;

/// The empty string-entry map.
pub open spec fn no_written_strings() -> Map<Seq<char>, Seq<char>> {
    Map::empty()
}

/// The empty boolean-entry map.
pub open spec fn no_written_bools() -> Map<Seq<char>, bool> {
    Map::empty()
}

/// The view of an optional string.
pub open spec fn opt_str_view(v: Option<String>) -> Option<Seq<char>> {
    match v {
        Option::Some(s) => Option::Some(s@),
        Option::None => Option::None,
    }
}

/// The view of an optional list of dictionaries.
pub open spec fn opt_dicts_view(v: Option<Vec<pyo3::Py<pyo3::types::PyDict>>>) -> Option<
    Seq<pyo3::Py<pyo3::types::PyDict>>,
> {
    match v {
        Option::Some(x) => Option::Some(x@),
        Option::None => Option::None,
    }
}

/// The string entries of the loader's configuration bag: `device` under
/// its canonical name exactly when a device is chosen, `download_root`
/// exactly when a cache directory is given (as the resolved path), and
/// nothing else.
pub open spec fn load_bag_strings(device: Option<Device>, download_root: Option<Seq<char>>) -> Map<
    Seq<char>,
    Seq<char>,
> {
    let with_device = match device {
        Option::Some(d) => no_written_strings().insert("device"@, d.spec_name()),
        Option::None => no_written_strings(),
    };
    match download_root {
        Option::Some(p) => with_device.insert("download_root"@, p),
        Option::None => with_device,
    }
}

/// The whole configuration bag handed to the external loader: the string
/// entries of `load_bag_strings`, the `in_memory` flag always, and no
/// other entry of either kind.
pub open spec fn load_bag_matches(
    kw: pyo3::Py<pyo3::types::PyDict>,
    device: Option<Device>,
    download_root: Option<Seq<char>>,
    in_memory: bool,
) -> bool {
    &&& written_strings(kw) == load_bag_strings(device, download_root)
    &&& written_bools(kw) == no_written_bools().insert("in_memory"@, in_memory)
}

/// The configuration bag of one transcription call: the `language` entry,
/// under the hint's canonical name, exactly when a hint is given, and no
/// other entry of either kind.
pub open spec fn language_bag_matches(
    kw: pyo3::Py<pyo3::types::PyDict>,
    language: Option<Language>,
) -> bool {
    &&& written_strings(kw) == (match language {
        Option::Some(l) => no_written_strings().insert("language"@, l.spec_name()),
        Option::None => no_written_strings(),
    })
    &&& written_bools(kw) == no_written_bools()
}

/// How a fetched segment record corresponds to its response dictionary:
/// each field is exactly what reading the matching key yields.
pub open spec fn raw_segment_read(sd: pyo3::Py<pyo3::types::PyDict>, rs: RawSegment) -> bool {
    &&& opt_str_view(rs.text) == string_entry(sd, "text"@)
    &&& rs.start == time_entry(sd, "start"@)
    &&& rs.end == time_entry(sd, "end"@)
}

/// How a fetched raw response corresponds to the response dictionary:
/// every field is exactly what reading the matching key yields, with the
/// segment records in the order of the response's list.
pub open spec fn raw_response_read(
    d: pyo3::Py<pyo3::types::PyDict>,
    raw: RawTranscription,
) -> bool {
    &&& opt_str_view(raw.text) == string_entry(d, "text"@)
    &&& opt_str_view(raw.language) == string_entry(d, "language"@)
    &&& match (raw.segments, dict_list_entry(d, "segments"@)) {
        (Option::None, Option::None) => true,
        (Option::Some(records), Option::Some(dicts)) => {
            &&& records@.len() == dicts.len()
            &&& forall|i: int|
                0 <= i < dicts.len() ==> raw_segment_read(dicts[i], #[trigger] records@[i])
        },
        _ => false,
    }
}

/// Which pretrained weight set to load. The English-only variants are
/// restricted forms of their base size.
#[derive(Clone, Copy, Debug, PartialEq, Eq, Structural)]
pub enum ModelSize {
    Tiny,
    TinyEnglishOnly,
    Base,
    BaseEnglishOnly,
    Small,
    SmallEnglishOnly,
    Medium,
    MediumEnglishOnly,
    Large,
}

impl ModelSize {
    /// The canonical external-facing name of this weight set; an
    /// English-only variant appends ".en" to its base size's name.
    pub open spec fn spec_name(self) -> Seq<char> {
        match self {
            ModelSize::Tiny => "tiny"@,
            ModelSize::TinyEnglishOnly => "tiny.en"@,
            ModelSize::Base => "base"@,
            ModelSize::BaseEnglishOnly => "base.en"@,
            ModelSize::Small => "small"@,
            ModelSize::SmallEnglishOnly => "small.en"@,
            ModelSize::Medium => "medium"@,
            ModelSize::MediumEnglishOnly => "medium.en"@,
            ModelSize::Large => "large"@,
        }
    }

    /// The canonical external-facing name of this weight set.
    pub fn to_string(&self) -> (r: String)
        ensures
            r@ == self.spec_name(),
    {
        match self {
            ModelSize::Tiny => "tiny".to_owned(),
            ModelSize::TinyEnglishOnly => "tiny.en".to_owned(),
            ModelSize::Base => "base".to_owned(),
            ModelSize::BaseEnglishOnly => "base.en".to_owned(),
            ModelSize::Small => "small".to_owned(),
            ModelSize::SmallEnglishOnly => "small.en".to_owned(),
            ModelSize::Medium => "medium".to_owned(),
            ModelSize::MediumEnglishOnly => "medium.en".to_owned(),
            ModelSize::Large => "large".to_owned(),
        }
    }
}

impl Default for ModelSize {
    /// The size used when none is chosen.
    fn default() -> (r: Self)
        ensures
            r == ModelSize::Small,
    {
        ModelSize::Small
    }
}

/// The compute backend: the CPU, or an accelerator optionally qualified
/// by a non-negative index.
#[derive(Clone, Copy, Debug, PartialEq, Eq)]
pub enum Device {
    Cpu,
    Cuda(Option<usize>),
}

impl Device {
    /// The canonical backend name: `cpu`, `cuda`, or `cuda:<index>`.
    pub open spec fn spec_name(self) -> Seq<char> {
        match self {
            Device::Cpu => "cpu"@,
            Device::Cuda(index) => match index {
                None => "cuda"@,
                Some(i) => "cuda:"@ + decimal_rep(i as nat),
            },
        }
    }

    /// The canonical backend name.
    pub fn to_string(&self) -> (r: String)
        ensures
            r@ == self.spec_name(),
    {
        match self {
            Device::Cpu => "cpu".to_owned(),
            Device::Cuda(None) => "cuda".to_owned(),
            Device::Cuda(Some(i)) => {
                let mut s = "cuda:".to_owned();
                let digits = usize_decimal(*i);
                s.append(digits.as_str());
                s
            },
        }
    }
}

/// Relies on `std::path::Path::canonicalize`: resolves a path to absolute
/// form, failing — for a path that does not exist, among else — with the
/// underlying I/O error.
#[verifier::external_body]
fn resolve_path(path: &str) -> (r: Result<String, Error>)
    ensures
        r matches Err(e) ==> e is InputOutput,
{
    match std::path::Path::new(path).canonicalize() {
        Ok(p) => Ok(p.display().to_string()),
        Err(e) => Err(Error::InputOutput(e)),
    }
}

/// Relies on pyo3's `PyDict::new`: a fresh, empty Python dictionary.
/// The process-wide Python interpreter must already be initialized:
/// pyo3's `with_gil` panics otherwise.
#[verifier::external_body]
fn py_dict_new() -> (r: pyo3::Py<pyo3::types::PyDict>)
    ensures
        written_strings(r) == no_written_strings(),
        written_bools(r) == no_written_bools(),
{
    pyo3::Python::with_gil(|py| pyo3::types::PyDict::new(py).into())
}

/// Relies on pyo3's `PyDict::set_item`: writes a string-valued entry
/// under `key`, replacing whatever entry that key held.
/// The process-wide Python interpreter must already be initialized:
/// pyo3's `with_gil` panics otherwise.
#[verifier::external_body]
fn py_dict_set_str(d: &mut pyo3::Py<pyo3::types::PyDict>, key: &str, value: &str) -> (r: Result<
    (),
    Error,
>)
    ensures
        r matches Err(e) ==> e is Python,
        r is Ok ==> written_strings(*final(d)) == written_strings(*old(d)).insert(key@, value@),
        r is Ok ==> written_bools(*final(d)) == written_bools(*old(d)).remove(key@),
{
    pyo3::Python::with_gil(|py| d.as_ref(py).set_item(key, value).map_err(Error::from))
}

/// Relies on pyo3's `PyDict::set_item`: writes a boolean-valued entry
/// under `key`, replacing whatever entry that key held.
/// The process-wide Python interpreter must already be initialized:
/// pyo3's `with_gil` panics otherwise.
#[verifier::external_body]
fn py_dict_set_bool(d: &mut pyo3::Py<pyo3::types::PyDict>, key: &str, value: bool) -> (r: Result<
    (),
    Error,
>)
    ensures
        r matches Err(e) ==> e is Python,
        r is Ok ==> written_bools(*final(d)) == written_bools(*old(d)).insert(key@, value),
        r is Ok ==> written_strings(*final(d)) == written_strings(*old(d)).remove(key@),
{
    pyo3::Python::with_gil(|py| d.as_ref(py).set_item(key, value).map_err(Error::from))
}

/// Relies on the `whisper` Python module's `load_model` (reached through
/// pyo3's import, getattr and call): loads the named weight set with the
/// given keyword options; every failure is surfaced as `Error::Python`.
/// The process-wide Python interpreter must already be initialized:
/// pyo3's `with_gil` panics otherwise.
#[verifier::external_body]
fn py_load_model(
    name: &str,
    kwargs: &pyo3::Py<pyo3::types::PyDict>,
) -> (r: Result<pyo3::Py<pyo3::PyAny>, Error>)
    ensures
        r matches Err(e) ==> e is Python,
{
    pyo3::Python::with_gil(|py| {
        let whisper = pyo3::types::PyModule::import(py, "whisper")?;
        let model = whisper.getattr("load_model")?.call((name,), Some(kwargs.as_ref(py)))?;
        Ok(model.into())
    })
}

/// Relies on the model object's `transcribe` method (via pyo3's
/// `call_method`), handing it a file path; the response must downcast to
/// a dictionary, and every failure is surfaced as `Error::Python`.
/// The process-wide Python interpreter must already be initialized:
/// pyo3's `with_gil` panics otherwise.
#[verifier::external_body]
fn py_transcribe_path(
    model: &pyo3::Py<pyo3::PyAny>,
    path: &str,
    kwargs: &pyo3::Py<pyo3::types::PyDict>,
) -> (r: Result<pyo3::Py<pyo3::types::PyDict>, Error>)
    ensures
        r matches Err(e) ==> e is Python,
{
    pyo3::Python::with_gil(|py| {
        let out = model.as_ref(py).call_method("transcribe", (path,), Some(kwargs.as_ref(py)))?;
        let dict: &pyo3::types::PyDict = out.downcast().map_err(pyo3::PyErr::from)?;
        Ok(dict.into())
    })
}

/// Relies on numpy's `into_pyarray` and ndarray's `view`: hands the raw
/// 32-bit sample patterns to Python and reinterprets them in place as
/// IEEE 754 single-precision values, then calls the model object's
/// `transcribe` on the array; the response must downcast to a dictionary.
/// The process-wide Python interpreter must already be initialized:
/// pyo3's `with_gil` panics otherwise.
#[verifier::external_body]
fn py_transcribe_audio(
    model: &pyo3::Py<pyo3::PyAny>,
    samples: Vec<u32>,
    kwargs: &pyo3::Py<pyo3::types::PyDict>,
) -> (r: Result<pyo3::Py<pyo3::types::PyDict>, Error>)
    ensures
        r matches Err(e) ==> e is Python,
{
    pyo3::Python::with_gil(|py| {
        let array = numpy::convert::IntoPyArray::into_pyarray(samples, py);
        let array = array.call_method1("view", ("float32",))?;
        let out = model.as_ref(py).call_method("transcribe", (array,), Some(kwargs.as_ref(py)))?;
        let dict: &pyo3::types::PyDict = out.downcast().map_err(pyo3::PyErr::from)?;
        Ok(dict.into())
    })
}

/// Relies on pyo3's `PyDict::get_item` and `extract`: the entry under
/// `key` as a string; `None` when the key is absent; a value of another
/// shape is the runtime's extraction error, surfaced as `Error::Python`.
/// The process-wide Python interpreter must already be initialized:
/// pyo3's `with_gil` panics otherwise.
#[verifier::external_body]
fn py_dict_get_string(
    d: &pyo3::Py<pyo3::types::PyDict>,
    key: &str,
) -> (r: Result<Option<String>, Error>)
    ensures
        r matches Err(e) ==> e is Python,
        r matches Ok(v) ==> opt_str_view(v) == string_entry(*d, key@),
{
    pyo3::Python::with_gil(|py| match d.as_ref(py).get_item(key) {
        None => Ok(None),
        Some(v) => v.extract().map(Some).map_err(Error::from),
    })
}

/// Relies on pyo3's `PyDict::get_item`, iteration and downcast: the entry
/// under `key` as a list of dictionaries; `None` when the key is absent.
/// The process-wide Python interpreter must already be initialized:
/// pyo3's `with_gil` panics otherwise.
#[verifier::external_body]
fn py_dict_get_dicts(
    d: &pyo3::Py<pyo3::types::PyDict>,
    key: &str,
) -> (r: Result<Option<Vec<pyo3::Py<pyo3::types::PyDict>>>, Error>)
    ensures
        r matches Err(e) ==> e is Python,
        r matches Ok(v) ==> opt_dicts_view(v) == dict_list_entry(*d, key@),
{
    pyo3::Python::with_gil(|py| match d.as_ref(py).get_item(key) {
        None => Ok(None),
        Some(v) => v.iter().map_err(Error::from)?.map(
            |item| Ok(item?.downcast::<pyo3::types::PyDict>().map_err(pyo3::PyErr::from)?.into()),
        ).collect::<Result<Vec<pyo3::Py<pyo3::types::PyDict>>, pyo3::PyErr>>().map(Some).map_err(
            Error::from,
        ),
    })
}

/// Relies on Python's `struct.pack` and `struct.unpack`: the entry under
/// `key` read as a number and returned as the bit pattern of its IEEE 754
/// single-precision value (rounded exactly as an extraction to a 32-bit
/// float would round it); `None` when the key is absent.
/// The process-wide Python interpreter must already be initialized:
/// pyo3's `with_gil` panics otherwise.
#[verifier::external_body]
fn py_dict_get_time_bits(
    d: &pyo3::Py<pyo3::types::PyDict>,
    key: &str,
) -> (r: Result<Option<u32>, Error>)
    ensures
        r matches Err(e) ==> e is Python,
        r matches Ok(v) ==> v == time_entry(*d, key@),
{
    pyo3::Python::with_gil(|py| match d.as_ref(py).get_item(key) {
        None => Ok(None),
        Some(v) => {
            let packer = pyo3::types::PyModule::import(py, "struct")?;
            let packed = packer.getattr("pack")?.call1(("<f", v))?;
            let bits = packer.getattr("unpack")?.call1(("<I", packed))?.get_item(0)?;
            Ok(Some(bits.extract()?))
        },
    })
}

/// Builds the loader's configuration bag from the chosen options; a cache
/// directory must already be resolved. The bag holds exactly what
/// `load_bag_matches` says: `device` and `download_root` each exactly
/// when given, `in_memory` always, nothing else.
fn load_kwargs(
    specific_device: Option<Device>,
    download_root: Option<String>,
    in_memory: bool,
) -> (r: Result<pyo3::Py<pyo3::types::PyDict>, Error>)
    ensures
        r matches Err(e) ==> e is Python,
        r matches Ok(kw) ==> load_bag_matches(
            kw,
            specific_device,
            opt_str_view(download_root),
            in_memory,
        ),
{
    proof {
        reveal_strlit("device");
        reveal_strlit("download_root");
        reveal_strlit("in_memory");
        assert("device"@.len() == 6 && "download_root"@.len() == 13 && "in_memory"@.len() == 9);
    }
    let mut kwargs = py_dict_new();
    match specific_device {
        Some(device) => {
            let device_name = device.to_string();
            match py_dict_set_str(&mut kwargs, "device", device_name.as_str()) {
                Ok(u) => u,
                Err(e) => {
                    return Err(e);
                },
            }
        },
        None => {},
    }
    match &download_root {
        Some(path) => {
            match py_dict_set_str(&mut kwargs, "download_root", path.as_str()) {
                Ok(u) => u,
                Err(e) => {
                    return Err(e);
                },
            }
        },
        None => {},
    }
    match py_dict_set_bool(&mut kwargs, "in_memory", in_memory) {
        Ok(u) => u,
        Err(e) => {
            return Err(e);
        },
    }
    proof {
        assert(written_strings(kwargs) =~= load_bag_strings(
            specific_device,
            opt_str_view(download_root),
        ));
        assert(written_bools(kwargs) =~= no_written_bools().insert("in_memory"@, in_memory));
    }
    Ok(kwargs)
}

/// Owns one handle to a loaded external model instance. Built once by a
/// loading constructor; its size and device cannot change afterwards.
pub struct Model {
    model: pyo3::Py<pyo3::PyAny>,
}

impl Model {
    /// Loads the external model named by `size` (its canonical name is
    /// the positional argument). A given weight-cache directory is
    /// resolved to an absolute path first — one that does not resolve
    /// fails with an I/O error before the loader is invoked — and the
    /// loader's configuration bag is exactly the one `load_bag_matches`
    /// describes.
    pub fn new(
        size: ModelSize,
        specific_device: Option<Device>,
        download_path: Option<&str>,
        in_memory: bool,
    ) -> (r: Result<Model, Error>)
        ensures
            r matches Err(e) ==> e is Python || e is InputOutput,
            download_path is None ==> (r matches Err(e) ==> e is Python),
            r is Ok && download_path is None ==> exists|kw: pyo3::Py<pyo3::types::PyDict>|
                #[trigger] load_bag_matches(kw, specific_device, Option::None, in_memory),
            r is Ok && download_path is Some ==> exists|
                kw: pyo3::Py<pyo3::types::PyDict>,
                root: Seq<char>,
            | #[trigger] load_bag_matches(kw, specific_device, Option::Some(root), in_memory),
    {
        let root = match download_path {
            Some(path) => {
                match resolve_path(path) {
                    Ok(p) => Some(p),
                    Err(e) => {
                        return Err(e);
                    },
                }
            },
            None => None,
        };
        let kwargs = match load_kwargs(specific_device, root, in_memory) {
            Ok(k) => k,
            Err(e) => {
                return Err(e);
            },
        };
        let size_name = size.to_string();
        match py_load_model(size_name.as_str(), &kwargs) {
            Ok(m) => Ok(Model { model: m }),
            Err(e) => Err(e),
        }
    }

    /// Loads `size` with no device override, no weight-cache directory,
    /// and memory-mapped weights: the loader's bag holds `in_memory =
    /// false` and nothing else.
    pub fn from_size(size: ModelSize) -> (r: Result<Model, Error>)
        ensures
            r matches Err(e) ==> e is Python,
            r is Ok ==> exists|kw: pyo3::Py<pyo3::types::PyDict>| #[trigger] load_bag_matches(
                kw,
                Option::None,
                Option::None,
                false,
            ),
    {
        Model::new(size, None, None, false)
    }

    /// Loads the default size (small) with the default choices of
    /// `from_size`.
    pub fn default() -> (r: Result<Model, Error>)
        ensures
            r matches Err(e) ==> e is Python,
            r is Ok ==> exists|kw: pyo3::Py<pyo3::types::PyDict>| #[trigger] load_bag_matches(
                kw,
                Option::None,
                Option::None,
                false,
            ),
    {
        Model::from_size(ModelSize::default())
    }

    /// Transcribes the audio file at `path`. The path is resolved first:
    /// one that does not exist fails with an I/O error before the external
    /// model is invoked. On success the result is the validating
    /// conversion of a response whose entries it matches in full, the
    /// call's bag held the language hint exactly when one was given, and
    /// a conversion error reflects what some response's entries read as.
    pub fn transcribe_file(&self, path: &str, language: Option<Language>) -> (r: Result<
        Transcription,
        Error,
    >)
        ensures
            r matches Ok(t) ==> exists|kw: pyo3::Py<pyo3::types::PyDict>|
                #[trigger] language_bag_matches(kw, language),
            r matches Ok(t) ==> exists|
                d: pyo3::Py<pyo3::types::PyDict>,
                raw: RawTranscription,
            |
                {
                    &&& #[trigger] raw_response_read(d, raw)
                    &&& raw.is_complete()
                    &&& transcription_matches(raw, t)
                },
            r matches Err(e) ==> match e {
                Error::MissingResult(f) => exists|
                    d: pyo3::Py<pyo3::types::PyDict>,
                    raw: RawTranscription,
                |
                    {
                        &&& #[trigger] raw_response_read(d, raw)
                        &&& raw.first_missing_field() == Some(f@)
                    },
                Error::InvalidLanguageString(s) => exists|
                    d: pyo3::Py<pyo3::types::PyDict>,
                    raw: RawTranscription,
                |
                    {
                        &&& #[trigger] raw_response_read(d, raw)
                        &&& raw.is_complete()
                        &&& raw.language matches Some(x) && s@ == x@
                        &&& parse_language(s@) is None
                    },
                Error::Python(_) => true,
                Error::InputOutput(_) => true,
            },
    {
        let full_path = match resolve_path(path) {
            Ok(p) => p,
            Err(e) => {
                return Err(e);
            },
        };
        let kwargs = match Model::transcribe_kwargs(language) {
            Ok(k) => k,
            Err(e) => {
                return Err(e);
            },
        };
        let response = match py_transcribe_path(&self.model, full_path.as_str(), &kwargs) {
            Ok(d) => d,
            Err(e) => {
                return Err(e);
            },
        };
        Model::convert_response(&response)
    }

    /// Transcribes raw mono audio samples, each given as the bit pattern
    /// of an IEEE 754 single-precision value in the model's expected
    /// sample rate (not validated here). Never fails with an I/O error:
    /// no filesystem access is involved. The other clauses are those of
    /// `transcribe_file`.
    pub fn transcribe_audio(&self, audio: Vec<u32>, language: Option<Language>) -> (r: Result<
        Transcription,
        Error,
    >)
        ensures
            r matches Ok(t) ==> exists|kw: pyo3::Py<pyo3::types::PyDict>|
                #[trigger] language_bag_matches(kw, language),
            r matches Ok(t) ==> exists|
                d: pyo3::Py<pyo3::types::PyDict>,
                raw: RawTranscription,
            |
                {
                    &&& #[trigger] raw_response_read(d, raw)
                    &&& raw.is_complete()
                    &&& transcription_matches(raw, t)
                },
            r matches Err(e) ==> match e {
                Error::MissingResult(f) => exists|
                    d: pyo3::Py<pyo3::types::PyDict>,
                    raw: RawTranscription,
                |
                    {
                        &&& #[trigger] raw_response_read(d, raw)
                        &&& raw.first_missing_field() == Some(f@)
                    },
                Error::InvalidLanguageString(s) => exists|
                    d: pyo3::Py<pyo3::types::PyDict>,
                    raw: RawTranscription,
                |
                    {
                        &&& #[trigger] raw_response_read(d, raw)
                        &&& raw.is_complete()
                        &&& raw.language matches Some(x) && s@ == x@
                        &&& parse_language(s@) is None
                    },
                Error::Python(_) => true,
                Error::InputOutput(_) => false,
            },
    {
        let kwargs = match Model::transcribe_kwargs(language) {
            Ok(k) => k,
            Err(e) => {
                return Err(e);
            },
        };
        let response = match py_transcribe_audio(&self.model, audio, &kwargs) {
            Ok(d) => d,
            Err(e) => {
                return Err(e);
            },
        };
        Model::convert_response(&response)
    }

    /// The configuration bag for one transcription call: the `language`
    /// entry is set exactly when a hint is supplied, under the hint's
    /// canonical name, and nothing else is set; omission lets the model
    /// detect the language.
    fn transcribe_kwargs(language: Option<Language>) -> (r: Result<
        pyo3::Py<pyo3::types::PyDict>,
        Error,
    >)
        ensures
            r matches Err(e) ==> e is Python,
            r matches Ok(kw) ==> language_bag_matches(kw, language),
    {
        let mut kwargs = py_dict_new();
        match language {
            Some(l) => {
                let name = l.to_string();
                match py_dict_set_str(&mut kwargs, "language", name.as_str()) {
                    Ok(u) => u,
                    Err(e) => {
                        return Err(e);
                    },
                }
            },
            None => {},
        }
        proof {
            assert(written_bools(kwargs) =~= no_written_bools());
        }
        Ok(kwargs)
    }

    /// Reads the raw response fields out of the response dictionary, in
    /// the order the external call reported them: `text`, the segment
    /// records (each one's text, start and end), then `language`. Absent
    /// keys become absent fields; only the runtime's own extraction
    /// failures are errors here. The record returned is exactly what the
    /// response's entries read as.
    fn fetch_raw(response: &pyo3::Py<pyo3::types::PyDict>) -> (r: Result<RawTranscription, Error>)
        ensures
            r matches Err(e) ==> e is Python,
            r matches Ok(raw) ==> raw_response_read(*response, raw),
    {
        let text = match py_dict_get_string(response, "text") {
            Ok(v) => v,
            Err(e) => {
                return Err(e);
            },
        };
        let segment_dicts = match py_dict_get_dicts(response, "segments") {
            Ok(v) => v,
            Err(e) => {
                return Err(e);
            },
        };
        let segments = match segment_dicts {
            None => None,
            Some(list) => {
                let mut records: Vec<RawSegment> = Vec::new();
                let mut i: usize = 0;
                while i < list.len()
                    invariant
                        i <= list@.len(),
                        records@.len() == i,
                        forall|k: int|
                            0 <= k < i ==> raw_segment_read(list@[k], #[trigger] records@[k]),
                    decreases list@.len() - i,
                {
                    let sd = &list[i];
                    let seg_text = match py_dict_get_string(sd, "text") {
                        Ok(v) => v,
                        Err(e) => {
                            return Err(e);
                        },
                    };
                    let seg_start = match py_dict_get_time_bits(sd, "start") {
                        Ok(v) => v,
                        Err(e) => {
                            return Err(e);
                        },
                    };
                    let seg_end = match py_dict_get_time_bits(sd, "end") {
                        Ok(v) => v,
                        Err(e) => {
                            return Err(e);
                        },
                    };
                    records.push(RawSegment { text: seg_text, start: seg_start, end: seg_end });
                    i = i + 1;
                }
                Some(records)
            },
        };
        let language = match py_dict_get_string(response, "language") {
            Ok(v) => v,
            Err(e) => {
                return Err(e);
            },
        };
        Ok(RawTranscription { text, segments, language })
    }

    /// Validates and converts a raw response dictionary. Every returned
    /// transcription is the full validating conversion of what the
    /// response's entries read as, every conversion error reflects what
    /// they read as, and no partial result is ever produced.
    fn convert_response(response: &pyo3::Py<pyo3::types::PyDict>) -> (r: Result<
        Transcription,
        Error,
    >)
        ensures
            r matches Ok(t) ==> exists|raw: RawTranscription|
                {
                    &&& #[trigger] raw_response_read(*response, raw)
                    &&& raw.is_complete()
                    &&& transcription_matches(raw, t)
                },
            r matches Err(e) ==> match e {
                Error::MissingResult(f) => exists|raw: RawTranscription|
                    {
                        &&& #[trigger] raw_response_read(*response, raw)
                        &&& raw.first_missing_field() == Some(f@)
                    },
                Error::InvalidLanguageString(s) => exists|raw: RawTranscription|
                    {
                        &&& #[trigger] raw_response_read(*response, raw)
                        &&& raw.is_complete()
                        &&& raw.language matches Some(x) && s@ == x@
                        &&& parse_language(s@) is None
                    },
                Error::Python(_) => true,
                Error::InputOutput(_) => false,
            },
    {
        let raw = match Model::fetch_raw(response) {
            Ok(x) => x,
            Err(e) => {
                return Err(e);
            },
        };
        Transcription::from_raw(raw)
    }
}

} // verus!
