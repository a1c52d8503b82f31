//! The types the `FT.CREATE` command is built from: the options of an index
//! and the fields of its schema.

use crate::search::args::counted_args;
use crate::search::args::flag_args;
use crate::search::args::lemma_written_then;
use crate::search::args::optional_args;
use crate::search::args::optional_number_args;
use crate::search::args::optional_text;
use crate::search::args::write_arg;
use crate::search::args::write_counted;
use crate::search::args::write_flag;
use crate::search::args::write_number;
use crate::search::args::write_optional;
use crate::search::args::write_optional_number;
use crate::search::args::ToRedisArgs;
use crate::search::args::clone_optional;
use crate::text::clone_strings;
use crate::text::decimal;
use crate::text::texts;
use vstd::prelude::*;
use vstd::std_specs::convert::IntoSpec;
use vstd::string::StringExecFns;

verus! {

/// The data structure an index is built over.
#[derive(Clone, Copy, Debug, PartialEq, Eq, Structural)]
#[non_exhaustive]
pub enum IndexDataType {
    /// Hashes.
    Hash,
    /// JSON documents.
    Json,
}

impl IndexDataType {
    /// The keyword for the data type.
    pub open spec fn keyword(self) -> Seq<char> {
        match self {
            IndexDataType::Hash => "HASH"@,
            IndexDataType::Json => "JSON"@,
        }
    }

    /// The keyword for the data type.
    pub fn as_str(self) -> (keyword: &'static str)
        ensures
            keyword@ == self.keyword(),
    {
        match self {
            IndexDataType::Hash => "HASH",
            IndexDataType::Json => "JSON",
        }
    }
}

impl ToRedisArgs for IndexDataType {
    open spec fn args(&self) -> Seq<Seq<char>> {
        seq![self.keyword()]
    }

    fn write_redis_args(&self, out: &mut Vec<String>) {
        write_arg(out, self.as_str());
    }
}

/// The languages an index can stem and tokenize.
#[derive(Clone, Copy, Debug, PartialEq, Eq, Structural)]
#[non_exhaustive]
pub enum SearchLanguage {
    /// Arabic.
    Arabic,
    /// Basque.
    Basque,
    /// Catalan.
    Catalan,
    /// Danish.
    Danish,
    /// Dutch.
    Dutch,
    /// English.
    English,
    /// Finnish.
    Finnish,
    /// French.
    French,
    /// German.
    German,
    /// Greek.
    Greek,
    /// Hungarian.
    Hungarian,
    /// Indonesian.
    Indonesian,
    /// Irish.
    Irish,
    /// Italian.
    Italian,
    /// Lithuanian.
    Lithuanian,
    /// Nepali.
    Nepali,
    /// Norwegian.
    Norwegian,
    /// Portuguese.
    Portuguese,
    /// Romanian.
    Romanian,
    /// Russian.
    Russian,
    /// Spanish.
    Spanish,
    /// Swedish.
    Swedish,
    /// Tamil.
    Tamil,
    /// Turkish.
    Turkish,
    /// Chinese.
    Chinese,
}

impl SearchLanguage {
    /// The name of the language, in upper case.
    pub open spec fn keyword(self) -> Seq<char> {
        match self {
            SearchLanguage::Arabic => "ARABIC"@,
            SearchLanguage::Basque => "BASQUE"@,
            SearchLanguage::Catalan => "CATALAN"@,
            SearchLanguage::Danish => "DANISH"@,
            SearchLanguage::Dutch => "DUTCH"@,
            SearchLanguage::English => "ENGLISH"@,
            SearchLanguage::Finnish => "FINNISH"@,
            SearchLanguage::French => "FRENCH"@,
            SearchLanguage::German => "GERMAN"@,
            SearchLanguage::Greek => "GREEK"@,
            SearchLanguage::Hungarian => "HUNGARIAN"@,
            SearchLanguage::Indonesian => "INDONESIAN"@,
            SearchLanguage::Irish => "IRISH"@,
            SearchLanguage::Italian => "ITALIAN"@,
            SearchLanguage::Lithuanian => "LITHUANIAN"@,
            SearchLanguage::Nepali => "NEPALI"@,
            SearchLanguage::Norwegian => "NORWEGIAN"@,
            SearchLanguage::Portuguese => "PORTUGUESE"@,
            SearchLanguage::Romanian => "ROMANIAN"@,
            SearchLanguage::Russian => "RUSSIAN"@,
            SearchLanguage::Spanish => "SPANISH"@,
            SearchLanguage::Swedish => "SWEDISH"@,
            SearchLanguage::Tamil => "TAMIL"@,
            SearchLanguage::Turkish => "TURKISH"@,
            SearchLanguage::Chinese => "CHINESE"@,
        }
    }

    /// The name of the language, in upper case.
    pub fn as_str(self) -> (keyword: &'static str)
        ensures
            keyword@ == self.keyword(),
    {
        match self {
            SearchLanguage::Arabic => "ARABIC",
            SearchLanguage::Basque => "BASQUE",
            SearchLanguage::Catalan => "CATALAN",
            SearchLanguage::Danish => "DANISH",
            SearchLanguage::Dutch => "DUTCH",
            SearchLanguage::English => "ENGLISH",
            SearchLanguage::Finnish => "FINNISH",
            SearchLanguage::French => "FRENCH",
            SearchLanguage::German => "GERMAN",
            SearchLanguage::Greek => "GREEK",
            SearchLanguage::Hungarian => "HUNGARIAN",
            SearchLanguage::Indonesian => "INDONESIAN",
            SearchLanguage::Irish => "IRISH",
            SearchLanguage::Italian => "ITALIAN",
            SearchLanguage::Lithuanian => "LITHUANIAN",
            SearchLanguage::Nepali => "NEPALI",
            SearchLanguage::Norwegian => "NORWEGIAN",
            SearchLanguage::Portuguese => "PORTUGUESE",
            SearchLanguage::Romanian => "ROMANIAN",
            SearchLanguage::Russian => "RUSSIAN",
            SearchLanguage::Spanish => "SPANISH",
            SearchLanguage::Swedish => "SWEDISH",
            SearchLanguage::Tamil => "TAMIL",
            SearchLanguage::Turkish => "TURKISH",
            SearchLanguage::Chinese => "CHINESE",
        }
    }
}

impl ToRedisArgs for SearchLanguage {
    open spec fn args(&self) -> Seq<Seq<char>> {
        seq![self.keyword()]
    }

    fn write_redis_args(&self, out: &mut Vec<String>) {
        write_arg(out, self.as_str());
    }
}

/// The type of a field of the schema.
#[derive(Clone, Copy, Debug, PartialEq, Eq, Structural)]
#[non_exhaustive]
pub enum FieldType {
    /// Full-text search over the value.
    Text,
    /// Exact-match queries over the value, such as categories or keys.
    Tag,
    /// Numeric range queries over the value.
    Numeric,
    /// Radius queries over the point the value gives.
    Geo,
    /// Vector queries over the value.
    Vector,
    /// Polygon queries over the value.
    GeoShape,
}

impl FieldType {
    /// The keyword for the field type.
    pub open spec fn keyword(self) -> Seq<char> {
        match self {
            FieldType::Text => "TEXT"@,
            FieldType::Tag => "TAG"@,
            FieldType::Numeric => "NUMERIC"@,
            FieldType::Geo => "GEO"@,
            FieldType::Vector => "VECTOR"@,
            FieldType::GeoShape => "GEOSHAPE"@,
        }
    }

    /// The keyword for the field type.
    pub fn as_str(self) -> (keyword: &'static str)
        ensures
            keyword@ == self.keyword(),
    {
        match self {
            FieldType::Text => "TEXT",
            FieldType::Tag => "TAG",
            FieldType::Numeric => "NUMERIC",
            FieldType::Geo => "GEO",
            FieldType::Vector => "VECTOR",
            FieldType::GeoShape => "GEOSHAPE",
        }
    }
}

impl ToRedisArgs for FieldType {
    open spec fn args(&self) -> Seq<Seq<char>> {
        seq![self.keyword()]
    }

    fn write_redis_args(&self, out: &mut Vec<String>) {
        write_arg(out, self.as_str());
    }
}

/// The phonetic matcher of a text field: double metaphone for one language.
#[derive(Clone, Copy, Debug, PartialEq, Eq, Structural)]
#[non_exhaustive]
pub enum Phonetic {
    /// English.
    DmEn,
    /// French.
    DmFr,
    /// Portuguese.
    DmPt,
    /// Spanish.
    DmEs,
}

impl Phonetic {
    /// The name of the matcher.
    pub open spec fn keyword(self) -> Seq<char> {
        match self {
            Phonetic::DmEn => "dm:en"@,
            Phonetic::DmFr => "dm:fr"@,
            Phonetic::DmPt => "dm:pt"@,
            Phonetic::DmEs => "dm:es"@,
        }
    }

    /// The name of the matcher.
    pub fn as_str(self) -> (keyword: &'static str)
        ensures
            keyword@ == self.keyword(),
    {
        match self {
            Phonetic::DmEn => "dm:en",
            Phonetic::DmFr => "dm:fr",
            Phonetic::DmPt => "dm:pt",
            Phonetic::DmEs => "dm:es",
        }
    }
}

impl ToRedisArgs for Phonetic {
    open spec fn args(&self) -> Seq<Seq<char>> {
        seq![self.keyword()]
    }

    fn write_redis_args(&self, out: &mut Vec<String>) {
        write_arg(out, self.as_str());
    }
}

/// The indexing algorithm of a vector field.
#[derive(Clone, Copy, Debug, PartialEq, Eq, Structural)]
#[non_exhaustive]
pub enum VectorAlgorithm {
    /// Brute-force exact search.
    Flat,
    /// Hierarchical navigable small world graph.
    Hnsw,
    /// Scalable vector search with a Vamana graph.
    Vamana,
}

impl VectorAlgorithm {
    /// The keyword for the algorithm.
    pub open spec fn keyword(self) -> Seq<char> {
        match self {
            VectorAlgorithm::Flat => "FLAT"@,
            VectorAlgorithm::Hnsw => "HNSW"@,
            VectorAlgorithm::Vamana => "SVS-VAMANA"@,
        }
    }

    /// The keyword for the algorithm.
    pub fn as_str(self) -> (keyword: &'static str)
        ensures
            keyword@ == self.keyword(),
    {
        match self {
            VectorAlgorithm::Flat => "FLAT",
            VectorAlgorithm::Hnsw => "HNSW",
            VectorAlgorithm::Vamana => "SVS-VAMANA",
        }
    }
}

impl ToRedisArgs for VectorAlgorithm {
    open spec fn args(&self) -> Seq<Seq<char>> {
        seq![self.keyword()]
    }

    fn write_redis_args(&self, out: &mut Vec<String>) {
        write_arg(out, self.as_str());
    }
}

/// The type of a vector's components.
#[derive(Clone, Copy, Debug, PartialEq, Eq, Structural)]
#[non_exhaustive]
pub enum VectorType {
    /// 32-bit floating point.
    Float32,
    /// 64-bit floating point.
    Float64,
    /// 16-bit brain floating point.
    BFloat16,
    /// 16-bit floating point.
    Float16,
    /// Signed 8-bit integer.
    Int8,
    /// Unsigned 8-bit integer.
    UInt8,
}

impl VectorType {
    /// The keyword for the component type.
    pub open spec fn keyword(self) -> Seq<char> {
        match self {
            VectorType::Float32 => "FLOAT32"@,
            VectorType::Float64 => "FLOAT64"@,
            VectorType::BFloat16 => "BFLOAT16"@,
            VectorType::Float16 => "FLOAT16"@,
            VectorType::Int8 => "INT8"@,
            VectorType::UInt8 => "UINT8"@,
        }
    }

    /// The keyword for the component type.
    pub fn as_str(self) -> (keyword: &'static str)
        ensures
            keyword@ == self.keyword(),
    {
        match self {
            VectorType::Float32 => "FLOAT32",
            VectorType::Float64 => "FLOAT64",
            VectorType::BFloat16 => "BFLOAT16",
            VectorType::Float16 => "FLOAT16",
            VectorType::Int8 => "INT8",
            VectorType::UInt8 => "UINT8",
        }
    }
}

impl ToRedisArgs for VectorType {
    open spec fn args(&self) -> Seq<Seq<char>> {
        seq![self.keyword()]
    }

    fn write_redis_args(&self, out: &mut Vec<String>) {
        write_arg(out, self.as_str());
    }
}

/// The distance between two vectors.
#[derive(Clone, Copy, Debug, PartialEq, Eq, Structural)]
#[non_exhaustive]
pub enum DistanceMetric {
    /// Euclidean distance.
    L2,
    /// Inner product.
    IP,
    /// Cosine distance.
    Cosine,
}

impl DistanceMetric {
    /// The keyword for the metric.
    pub open spec fn keyword(self) -> Seq<char> {
        match self {
            DistanceMetric::L2 => "L2"@,
            DistanceMetric::IP => "IP"@,
            DistanceMetric::Cosine => "COSINE"@,
        }
    }

    /// The keyword for the metric.
    pub fn as_str(self) -> (keyword: &'static str)
        ensures
            keyword@ == self.keyword(),
    {
        match self {
            DistanceMetric::L2 => "L2",
            DistanceMetric::IP => "IP",
            DistanceMetric::Cosine => "COSINE",
        }
    }
}

impl ToRedisArgs for DistanceMetric {
    open spec fn args(&self) -> Seq<Seq<char>> {
        seq![self.keyword()]
    }

    fn write_redis_args(&self, out: &mut Vec<String>) {
        write_arg(out, self.as_str());
    }
}

/// The compression of a Vamana vector index.
#[derive(Clone, Copy, Debug, PartialEq, Eq, Structural)]
#[non_exhaustive]
pub enum CompressionType {
    /// Locally-adaptive quantization, 8 bits.
    LVQ8,
    /// Locally-adaptive quantization, 4 bits.
    LVQ4,
    /// Locally-adaptive quantization, 4 bits and 4 residual bits.
    LVQ4x4,
    /// Locally-adaptive quantization, 4 bits and 8 residual bits.
    LVQ4x8,
    /// Dimensionality reduction with 4 and 8 bits.
    LeanVec4x8,
    /// Dimensionality reduction with 8 and 8 bits.
    LeanVec8x8,
}

impl CompressionType {
    /// The keyword for the compression.
    pub open spec fn keyword(self) -> Seq<char> {
        match self {
            CompressionType::LVQ8 => "LVQ8"@,
            CompressionType::LVQ4 => "LVQ4"@,
            CompressionType::LVQ4x4 => "LVQ4x4"@,
            CompressionType::LVQ4x8 => "LVQ4x8"@,
            CompressionType::LeanVec4x8 => "LeanVec4x8"@,
            CompressionType::LeanVec8x8 => "LeanVec8x8"@,
        }
    }

    /// The keyword for the compression.
    pub fn as_str(self) -> (keyword: &'static str)
        ensures
            keyword@ == self.keyword(),
    {
        match self {
            CompressionType::LVQ8 => "LVQ8",
            CompressionType::LVQ4 => "LVQ4",
            CompressionType::LVQ4x4 => "LVQ4x4",
            CompressionType::LVQ4x8 => "LVQ4x8",
            CompressionType::LeanVec4x8 => "LeanVec4x8",
            CompressionType::LeanVec8x8 => "LeanVec8x8",
        }
    }
}

impl ToRedisArgs for CompressionType {
    open spec fn args(&self) -> Seq<Seq<char>> {
        seq![self.keyword()]
    }

    fn write_redis_args(&self, out: &mut Vec<String>) {
        write_arg(out, self.as_str());
    }
}

/// The coordinate system of a geo shape field.
#[derive(Clone, Copy, Debug, PartialEq, Eq, Structural)]
#[non_exhaustive]
pub enum CoordSystem {
    /// Geographic longitude and latitude.
    Spherical,
    /// Cartesian X and Y.
    Flat,
}

impl CoordSystem {
    /// The keyword for the coordinate system.
    pub open spec fn keyword(self) -> Seq<char> {
        match self {
            CoordSystem::Spherical => "SPHERICAL"@,
            CoordSystem::Flat => "FLAT"@,
        }
    }

    /// The keyword for the coordinate system.
    pub fn as_str(self) -> (keyword: &'static str)
        ensures
            keyword@ == self.keyword(),
    {
        match self {
            CoordSystem::Spherical => "SPHERICAL",
            CoordSystem::Flat => "FLAT",
        }
    }
}

impl ToRedisArgs for CoordSystem {
    open spec fn args(&self) -> Seq<Seq<char>> {
        seq![self.keyword()]
    }

    fn write_redis_args(&self, out: &mut Vec<String>) {
        write_arg(out, self.as_str());
    }
}
impl FieldType {
    /// Whether fields of this type can be marked sortable.
    pub open spec fn sortable(self) -> bool {
        self == FieldType::Text || self == FieldType::Tag || self == FieldType::Numeric || self
            == FieldType::Geo
    }

    /// Whether fields of this type can be marked sortable.
    pub fn is_sortable(&self) -> (sortable: bool)
        ensures
            sortable == self.sortable(),
    {
        match self {
            FieldType::Text | FieldType::Tag | FieldType::Numeric | FieldType::Geo => true,
            _ => false,
        }
    }
}

/// How a field is made sortable.
#[derive(Clone, Copy, Debug, PartialEq, Eq, Structural)]
#[non_exhaustive]
pub enum Sortable {
    /// Sortable, with values normalized.
    Yes,
    /// Sortable, with values as they are.
    Unf,
}

impl ToRedisArgs for Sortable {
    open spec fn args(&self) -> Seq<Seq<char>> {
        match self {
            Sortable::Yes => seq!["SORTABLE"@],
            Sortable::Unf => seq!["SORTABLE"@, "UNF"@],
        }
    }

    fn write_redis_args(&self, out: &mut Vec<String>) {
        match self {
            Sortable::Yes => {
                write_arg(out, "SORTABLE");
            },
            Sortable::Unf => {
                write_arg(out, "SORTABLE");
                write_arg(out, "UNF");
            },
        }
    }
}

/// The component types a Vamana vector index accepts.
#[derive(Clone, Copy, Debug, PartialEq, Eq, Structural)]
#[non_exhaustive]
pub enum VamanaVectorType {
    /// 16-bit floating point.
    Float16,
    /// 32-bit floating point.
    Float32,
}

impl VamanaVectorType {
    /// The same component type among all vector types.
    pub open spec fn vector_type(self) -> VectorType {
        match self {
            VamanaVectorType::Float16 => VectorType::Float16,
            VamanaVectorType::Float32 => VectorType::Float32,
        }
    }
}

impl From<VamanaVectorType> for VectorType {
    fn from(vt: VamanaVectorType) -> (vector_type: Self) {
        match vt {
            VamanaVectorType::Float16 => VectorType::Float16,
            VamanaVectorType::Float32 => VectorType::Float32,
        }
    }
}

impl vstd::std_specs::convert::FromSpecImpl<VamanaVectorType> for VectorType {
    open spec fn obeys_from_spec() -> bool {
        true
    }

    open spec fn from_spec(vt: VamanaVectorType) -> Self {
        vt.vector_type()
    }
}

/// The optional arguments of `FT.CREATE`.
#[must_use]
#[derive(Debug)]
#[non_exhaustive]
pub struct CreateOptions {
    on: Option<IndexDataType>,
    prefixes: Vec<String>,
    filter: Option<String>,
    language: Option<SearchLanguage>,
    language_field: Option<String>,
    score: Option<String>,
    score_field: Option<String>,
    max_text_fields: bool,
    no_offsets: bool,
    temporary: Option<u64>,
    no_highlight: bool,
    no_fields: bool,
    no_freqs: bool,
    stopwords: Vec<String>,
    skip_initial_scan: bool,
}

/// The mathematical content of a [`CreateOptions`].
pub struct CreateOptionsView {
    pub on: Option<IndexDataType>,
    pub prefixes: Seq<Seq<char>>,
    pub filter: Option<Seq<char>>,
    pub language: Option<SearchLanguage>,
    pub language_field: Option<Seq<char>>,
    pub score: Option<Seq<char>>,
    pub score_field: Option<Seq<char>>,
    pub max_text_fields: bool,
    pub no_offsets: bool,
    pub temporary: Option<u64>,
    pub no_highlight: bool,
    pub no_fields: bool,
    pub no_freqs: bool,
    pub stopwords: Seq<Seq<char>>,
    pub skip_initial_scan: bool,
}

/// A filter expression between single quotes.
pub open spec fn quoted(filter: Seq<char>) -> Seq<char> {
    seq!['\''] + filter + seq!['\'']
}

impl CreateOptionsView {
    /// The options with nothing set.
    pub open spec fn empty() -> CreateOptionsView {
        CreateOptionsView {
            on: None,
            prefixes: Seq::empty(),
            filter: None,
            language: None,
            language_field: None,
            score: None,
            score_field: None,
            max_text_fields: false,
            no_offsets: false,
            temporary: None,
            no_highlight: false,
            no_fields: false,
            no_freqs: false,
            stopwords: Seq::empty(),
            skip_initial_scan: false,
        }
    }

    /// The arguments that say what is indexed: the data structure, the key
    /// prefixes and the filter.
    pub open spec fn source_args(self) -> Seq<Seq<char>> {
        optional_args(
            "ON"@,
            match self.on {
                Some(on) => Some(on.keyword()),
                None => None,
            },
        ) + counted_args("PREFIX"@, self.prefixes) + optional_args(
            "FILTER"@,
            match self.filter {
                Some(filter) => Some(quoted(filter)),
                None => None,
            },
        )
    }

    /// The arguments on language and score.
    pub open spec fn ranking_args(self) -> Seq<Seq<char>> {
        optional_args(
            "LANGUAGE"@,
            match self.language {
                Some(language) => Some(language.keyword()),
                None => None,
            },
        ) + optional_args("LANGUAGE_FIELD"@, self.language_field) + optional_args(
            "SCORE"@,
            self.score,
        ) + optional_args("SCORE_FIELD"@, self.score_field)
    }

    /// The arguments on what the index stores and for how long.
    pub open spec fn storage_args(self) -> Seq<Seq<char>> {
        flag_args(self.max_text_fields, "MAXTEXTFIELDS"@) + flag_args(
            self.no_offsets,
            "NOOFFSETS"@,
        ) + optional_number_args("TEMPORARY"@, self.temporary) + flag_args(
            self.no_highlight,
            "NOHL"@,
        ) + flag_args(self.no_fields, "NOFIELDS"@) + flag_args(self.no_freqs, "NOFREQS"@)
    }

    /// The arguments on stopwords and the initial scan.
    pub open spec fn scan_args(self) -> Seq<Seq<char>> {
        counted_args("STOPWORDS"@, self.stopwords) + flag_args(
            self.skip_initial_scan,
            "SKIPINITIALSCAN"@,
        )
    }

    /// The arguments of the options that are set, in the order the command
    /// wants them.
    pub open spec fn args(self) -> Seq<Seq<char>> {
        self.source_args() + self.ranking_args() + self.storage_args() + self.scan_args()
    }
}

impl View for CreateOptions {
    type V = CreateOptionsView;

    closed spec fn view(&self) -> CreateOptionsView {
        CreateOptionsView {
            on: self.on,
            prefixes: texts(self.prefixes@),
            filter: optional_text(self.filter),
            language: self.language,
            language_field: optional_text(self.language_field),
            score: optional_text(self.score),
            score_field: optional_text(self.score_field),
            max_text_fields: self.max_text_fields,
            no_offsets: self.no_offsets,
            temporary: self.temporary,
            no_highlight: self.no_highlight,
            no_fields: self.no_fields,
            no_freqs: self.no_freqs,
            stopwords: texts(self.stopwords@),
            skip_initial_scan: self.skip_initial_scan,
        }
    }
}

impl Clone for CreateOptions {
    fn clone(&self) -> (copy: Self)
        ensures
            copy@ == self@,
    {
        CreateOptions {
            on: self.on,
            prefixes: clone_strings(&self.prefixes),
            filter: clone_optional(&self.filter),
            language: self.language,
            language_field: clone_optional(&self.language_field),
            score: clone_optional(&self.score),
            score_field: clone_optional(&self.score_field),
            max_text_fields: self.max_text_fields,
            no_offsets: self.no_offsets,
            temporary: self.temporary,
            no_highlight: self.no_highlight,
            no_fields: self.no_fields,
            no_freqs: self.no_freqs,
            stopwords: clone_strings(&self.stopwords),
            skip_initial_scan: self.skip_initial_scan,
        }
    }
}

impl Default for CreateOptions {
    fn default() -> (options: Self)
        ensures
            options@ == CreateOptionsView::empty(),
    {
        let options = CreateOptions {
            on: None,
            prefixes: Vec::new(),
            filter: None,
            language: None,
            language_field: None,
            score: None,
            score_field: None,
            max_text_fields: false,
            no_offsets: false,
            temporary: None,
            no_highlight: false,
            no_fields: false,
            no_freqs: false,
            stopwords: Vec::new(),
            skip_initial_scan: false,
        };
        assert(options@.prefixes =~= Seq::empty());
        options
    }
}

impl CreateOptions {
    /// Options with nothing set.
    pub fn new() -> (options: Self)
        ensures
            options@ == CreateOptionsView::empty(),
    {
        Self::default()
    }

    /// Sets the data structure the index is built over.
    pub fn on(self, index_type: IndexDataType) -> (options: Self)
        ensures
            options@ == (CreateOptionsView { on: Some(index_type), ..self@ }),
    {
        let mut options = self;
        options.on = Some(index_type);
        options
    }

    /// Adds a prefix of the keys the index covers.
    pub fn prefix(self, prefix: &str) -> (options: Self)
        ensures
            options@ == (CreateOptionsView { prefixes: self@.prefixes.push(prefix@), ..self@ }),
    {
        let mut options = self;
        let owned = String::from_str(prefix);
        proof {
            crate::text::lemma_texts_push(options.prefixes@, owned);
        }
        options.prefixes.push(owned);
        options
    }

    /// Sets the filter expression that documents must satisfy.
    pub fn filter(self, filter: &str) -> (options: Self)
        ensures
            options@ == (CreateOptionsView { filter: Some(filter@), ..self@ }),
    {
        let mut options = self;
        options.filter = Some(String::from_str(filter));
        options
    }

    /// Sets the default language of the documents.
    pub fn language(self, language: SearchLanguage) -> (options: Self)
        ensures
            options@ == (CreateOptionsView { language: Some(language), ..self@ }),
    {
        let mut options = self;
        options.language = Some(language);
        options
    }

    /// Names the attribute that holds a document's language.
    pub fn language_field(self, language_field: &str) -> (options: Self)
        ensures
            options@ == (CreateOptionsView { language_field: Some(language_field@), ..self@ }),
    {
        let mut options = self;
        options.language_field = Some(String::from_str(language_field));
        options
    }

    /// Sets the default score of the documents, given as the numeral that
    /// is to stand in the command.
    pub fn score(self, score: &str) -> (options: Self)
        ensures
            options@ == (CreateOptionsView { score: Some(score@), ..self@ }),
    {
        let mut options = self;
        options.score = Some(String::from_str(score));
        options
    }

    /// Names the attribute that holds a document's score.
    pub fn score_field(self, score_field: &str) -> (options: Self)
        ensures
            options@ == (CreateOptionsView { score_field: Some(score_field@), ..self@ }),
    {
        let mut options = self;
        options.score_field = Some(String::from_str(score_field));
        options
    }

    /// Has the index encoded as if it had more than 32 text attributes.
    pub fn max_text_fields(self) -> (options: Self)
        ensures
            options@ == (CreateOptionsView { max_text_fields: true, ..self@ }),
    {
        let mut options = self;
        options.max_text_fields = true;
        options
    }

    /// Has no term offsets stored.
    pub fn no_offsets(self) -> (options: Self)
        ensures
            options@ == (CreateOptionsView { no_offsets: true, ..self@ }),
    {
        let mut options = self;
        options.no_offsets = true;
        options
    }

    /// Makes the index expire after `secs` seconds without use.
    pub fn temporary(self, secs: u64) -> (options: Self)
        ensures
            options@ == (CreateOptionsView { temporary: Some(secs), ..self@ }),
    {
        let mut options = self;
        options.temporary = Some(secs);
        options
    }

    /// Disables highlighting.
    pub fn no_highlight(self) -> (options: Self)
        ensures
            options@ == (CreateOptionsView { no_highlight: true, ..self@ }),
    {
        let mut options = self;
        options.no_highlight = true;
        options
    }

    /// Has no attribute bits stored for terms.
    pub fn no_fields(self) -> (options: Self)
        ensures
            options@ == (CreateOptionsView { no_fields: true, ..self@ }),
    {
        let mut options = self;
        options.no_fields = true;
        options
    }

    /// Has no term frequencies stored.
    pub fn no_freqs(self) -> (options: Self)
        ensures
            options@ == (CreateOptionsView { no_freqs: true, ..self@ }),
    {
        let mut options = self;
        options.no_freqs = true;
        options
    }

    /// Adds a word to the index's own list of stopwords.
    pub fn stopword(self, stopword: &str) -> (options: Self)
        ensures
            options@ == (CreateOptionsView { stopwords: self@.stopwords.push(stopword@), ..self@ }),
    {
        let mut options = self;
        let owned = String::from_str(stopword);
        proof {
            crate::text::lemma_texts_push(options.stopwords@, owned);
        }
        options.stopwords.push(owned);
        options
    }

    /// Has the index created without scanning the existing keys.
    pub fn skip_initial_scan(self) -> (options: Self)
        ensures
            options@ == (CreateOptionsView { skip_initial_scan: true, ..self@ }),
    {
        let mut options = self;
        options.skip_initial_scan = true;
        options
    }
}

/// Puts `filter` between single quotes.
pub fn quote(filter: &str) -> (text: String)
    ensures
        text@ == quoted(filter@),
{
    proof {
        reveal_strlit("'");
    }
    let mut text = String::from_str("'");
    text.append(filter);
    text.append("'");
    text
}

impl CreateOptions {
    fn write_source_args(&self, out: &mut Vec<String>)
        ensures
            texts(final(out)@) == texts(old(out)@) + self@.source_args(),
    {
        let ghost start = texts(out@);
        let on: Option<String> = match self.on {
            Some(on) => Some(String::from_str(on.as_str())),
            None => None,
        };
        write_optional(out, "ON", &on);
        write_counted(out, "PREFIX", &self.prefixes);
        let filter: Option<String> = match &self.filter {
            Some(filter) => Some(quote(filter.as_str())),
            None => None,
        };
        write_optional(out, "FILTER", &filter);
        proof {
            let on_args = optional_args("ON"@, optional_text(on));
            let prefix_args = counted_args("PREFIX"@, texts(self.prefixes@));
            let filter_args = optional_args("FILTER"@, optional_text(filter));
            lemma_written_then(start, on_args, prefix_args);
            lemma_written_then(start, on_args + prefix_args, filter_args);
        }
    }

    fn write_ranking_args(&self, out: &mut Vec<String>)
        ensures
            texts(final(out)@) == texts(old(out)@) + self@.ranking_args(),
    {
        let ghost start = texts(out@);
        let language: Option<String> = match self.language {
            Some(language) => Some(String::from_str(language.as_str())),
            None => None,
        };
        write_optional(out, "LANGUAGE", &language);
        write_optional(out, "LANGUAGE_FIELD", &self.language_field);
        write_optional(out, "SCORE", &self.score);
        write_optional(out, "SCORE_FIELD", &self.score_field);
        proof {
            let a = optional_args("LANGUAGE"@, optional_text(language));
            let b = optional_args("LANGUAGE_FIELD"@, optional_text(self.language_field));
            let c = optional_args("SCORE"@, optional_text(self.score));
            let d = optional_args("SCORE_FIELD"@, optional_text(self.score_field));
            lemma_written_then(start, a, b);
            lemma_written_then(start, a + b, c);
            lemma_written_then(start, a + b + c, d);
        }
    }

    fn write_storage_args(&self, out: &mut Vec<String>)
        ensures
            texts(final(out)@) == texts(old(out)@) + self@.storage_args(),
    {
        let ghost start = texts(out@);
        write_flag(out, self.max_text_fields, "MAXTEXTFIELDS");
        write_flag(out, self.no_offsets, "NOOFFSETS");
        write_optional_number(out, "TEMPORARY", self.temporary);
        write_flag(out, self.no_highlight, "NOHL");
        write_flag(out, self.no_fields, "NOFIELDS");
        write_flag(out, self.no_freqs, "NOFREQS");
        proof {
            let a = flag_args(self.max_text_fields, "MAXTEXTFIELDS"@);
            let b = flag_args(self.no_offsets, "NOOFFSETS"@);
            let c = optional_number_args("TEMPORARY"@, self.temporary);
            let d = flag_args(self.no_highlight, "NOHL"@);
            let e = flag_args(self.no_fields, "NOFIELDS"@);
            let f = flag_args(self.no_freqs, "NOFREQS"@);
            lemma_written_then(start, a, b);
            lemma_written_then(start, a + b, c);
            lemma_written_then(start, a + b + c, d);
            lemma_written_then(start, a + b + c + d, e);
            lemma_written_then(start, a + b + c + d + e, f);
        }
    }

    fn write_scan_args(&self, out: &mut Vec<String>)
        ensures
            texts(final(out)@) == texts(old(out)@) + self@.scan_args(),
    {
        let ghost start = texts(out@);
        write_counted(out, "STOPWORDS", &self.stopwords);
        write_flag(out, self.skip_initial_scan, "SKIPINITIALSCAN");
        proof {
            let a = counted_args("STOPWORDS"@, texts(self.stopwords@));
            let b = flag_args(self.skip_initial_scan, "SKIPINITIALSCAN"@);
            lemma_written_then(start, a, b);
        }
    }
}

impl ToRedisArgs for CreateOptions {
    open spec fn args(&self) -> Seq<Seq<char>> {
        self@.args()
    }

    fn write_redis_args(&self, out: &mut Vec<String>) {
        let ghost start = texts(out@);
        self.write_source_args(out);
        self.write_ranking_args(out);
        self.write_storage_args(out);
        self.write_scan_args(out);
        proof {
            let a = self@.source_args();
            let b = self@.ranking_args();
            let c = self@.storage_args();
            let d = self@.scan_args();
            lemma_written_then(start, a, b);
            lemma_written_then(start, a + b, c);
            lemma_written_then(start, a + b + c, d);
        }
    }
}

/// What every field of a schema has: its type, an alias, and whether
/// documents without the field are indexed.
#[derive(Debug)]
#[non_exhaustive]
pub struct BaseSchemaField {
    pub field_type: FieldType,
    pub alias: Option<String>,
    pub index_missing: bool,
}

/// The mathematical content of a [`BaseSchemaField`].
pub struct BaseSchemaFieldView {
    pub field_type: FieldType,
    pub alias: Option<Seq<char>>,
    pub index_missing: bool,
}

impl BaseSchemaFieldView {
    /// The arguments for the alias, if there is one.
    pub open spec fn alias_args(self) -> Seq<Seq<char>> {
        optional_args("AS"@, self.alias)
    }

    /// The argument for indexing documents without the field, if that is
    /// asked for.
    pub open spec fn index_missing_args(self) -> Seq<Seq<char>> {
        flag_args(self.index_missing, "INDEXMISSING"@)
    }

    /// The arguments of the field: the alias, the type, and the flag for
    /// documents without the field.
    pub open spec fn args(self) -> Seq<Seq<char>> {
        self.alias_args() + seq![self.field_type.keyword()] + self.index_missing_args()
    }
}

impl View for BaseSchemaField {
    type V = BaseSchemaFieldView;

    open spec fn view(&self) -> BaseSchemaFieldView {
        BaseSchemaFieldView {
            field_type: self.field_type,
            alias: optional_text(self.alias),
            index_missing: self.index_missing,
        }
    }
}

impl Clone for BaseSchemaField {
    fn clone(&self) -> (copy: Self)
        ensures
            copy == *self,
    {
        BaseSchemaField {
            field_type: self.field_type,
            alias: clone_optional(&self.alias),
            index_missing: self.index_missing,
        }
    }
}

impl BaseSchemaField {
    /// A field of the given type, without an alias.
    pub fn new(field_type: FieldType) -> (field: Self)
        ensures
            field@ == (BaseSchemaFieldView { field_type, alias: None, index_missing: false }),
    {
        BaseSchemaField { field_type, alias: None, index_missing: false }
    }

    /// Sets the alias of the field.
    pub fn alias(self, alias: &str) -> (field: Self)
        ensures
            field@ == (BaseSchemaFieldView { alias: Some(alias@), ..self@ }),
    {
        BaseSchemaField {
            field_type: self.field_type,
            alias: Some(String::from_str(alias)),
            index_missing: self.index_missing,
        }
    }

    /// Sets whether documents without the field are indexed.
    pub fn index_missing(self, index_missing: bool) -> (field: Self)
        ensures
            field@ == (BaseSchemaFieldView { index_missing, ..self@ }),
    {
        BaseSchemaField { field_type: self.field_type, alias: self.alias, index_missing }
    }

    /// Appends the arguments for the alias to `out`, if there is one.
    pub fn write_alias(&self, out: &mut Vec<String>)
        ensures
            texts(final(out)@) == texts(old(out)@) + self@.alias_args(),
    {
        write_optional(out, "AS", &self.alias);
    }

    /// Appends the argument for indexing documents without the field to
    /// `out`, if that is asked for.
    pub fn write_index_missing(&self, out: &mut Vec<String>)
        ensures
            texts(final(out)@) == texts(old(out)@) + self@.index_missing_args(),
    {
        write_flag(out, self.index_missing, "INDEXMISSING");
    }
}

impl ToRedisArgs for BaseSchemaField {
    open spec fn args(&self) -> Seq<Seq<char>> {
        self@.args()
    }

    fn write_redis_args(&self, out: &mut Vec<String>) {
        let ghost start = texts(out@);
        self.write_alias(out);
        self.field_type.write_redis_args(out);
        self.write_index_missing(out);
        proof {
            let a = self@.alias_args();
            let b = seq![self.field_type.keyword()];
            let c = self@.index_missing_args();
            lemma_written_then(start, a, b);
            lemma_written_then(start, a + b, c);
        }
    }
}

/// The arguments for making a field sortable, if that is asked for.
pub open spec fn sortable_args(sortable: Option<Sortable>) -> Seq<Seq<char>> {
    match sortable {
        Some(Sortable::Yes) => seq!["SORTABLE"@],
        Some(Sortable::Unf) => seq!["SORTABLE"@, "UNF"@],
        None => Seq::empty(),
    }
}

/// What the fields that hold plain values have in common: the base, whether
/// the field is sortable, and whether it is left out of the index.
#[derive(Debug)]
#[non_exhaustive]
pub struct SchemaCommonField {
    pub base: BaseSchemaField,
    pub sortable: Option<Sortable>,
    pub no_index: bool,
}

/// The mathematical content of a [`SchemaCommonField`].
pub struct SchemaCommonFieldView {
    pub base: BaseSchemaFieldView,
    pub sortable: Option<Sortable>,
    pub no_index: bool,
}

impl SchemaCommonFieldView {
    /// The arguments that follow those of the base and of the field's own
    /// options: for sorting, and for leaving the field out of the index.
    pub open spec fn args(self) -> Seq<Seq<char>> {
        sortable_args(self.sortable) + flag_args(self.no_index, "NOINDEX"@)
    }

    /// A field of the given type with nothing set.
    pub open spec fn plain(field_type: FieldType) -> SchemaCommonFieldView {
        SchemaCommonFieldView {
            base: BaseSchemaFieldView { field_type, alias: None, index_missing: false },
            sortable: None,
            no_index: false,
        }
    }
}

impl View for SchemaCommonField {
    type V = SchemaCommonFieldView;

    open spec fn view(&self) -> SchemaCommonFieldView {
        SchemaCommonFieldView {
            base: self.base@,
            sortable: self.sortable,
            no_index: self.no_index,
        }
    }
}

impl Clone for SchemaCommonField {
    fn clone(&self) -> (copy: Self)
        ensures
            copy == *self,
    {
        SchemaCommonField {
            base: self.base.clone(),
            sortable: self.sortable,
            no_index: self.no_index,
        }
    }
}

impl SchemaCommonField {
    /// A field of the given type with nothing set.
    pub fn new(field_type: FieldType) -> (field: Self)
        ensures
            field@ == SchemaCommonFieldView::plain(field_type),
    {
        SchemaCommonField { base: BaseSchemaField::new(field_type), sortable: None, no_index: false }
    }

    /// Makes the field sortable. Only fields of a sortable type can be.
    pub fn sortable(self, sortable: Sortable) -> (field: Self)
        requires
            self@.base.field_type.sortable(),
        ensures
            field@ == (SchemaCommonFieldView { sortable: Some(sortable), ..self@ }),
    {
        SchemaCommonField { base: self.base, sortable: Some(sortable), no_index: self.no_index }
    }

    /// Sets whether the field is left out of the index.
    pub fn no_index(self, no_index: bool) -> (field: Self)
        ensures
            field@ == (SchemaCommonFieldView { no_index, ..self@ }),
    {
        SchemaCommonField { base: self.base, sortable: self.sortable, no_index }
    }

    /// Sets the alias of the field.
    pub fn alias(self, alias: &str) -> (field: Self)
        ensures
            field@ == (SchemaCommonFieldView {
                base: BaseSchemaFieldView { alias: Some(alias@), ..self@.base },
                ..self@
            }),
    {
        SchemaCommonField {
            base: self.base.alias(alias),
            sortable: self.sortable,
            no_index: self.no_index,
        }
    }

    /// Sets whether documents without the field are indexed.
    pub fn index_missing(self, index_missing: bool) -> (field: Self)
        ensures
            field@ == (SchemaCommonFieldView {
                base: BaseSchemaFieldView { index_missing, ..self@.base },
                ..self@
            }),
    {
        SchemaCommonField {
            base: self.base.index_missing(index_missing),
            sortable: self.sortable,
            no_index: self.no_index,
        }
    }
}

impl ToRedisArgs for SchemaCommonField {
    open spec fn args(&self) -> Seq<Seq<char>> {
        self@.args()
    }

    fn write_redis_args(&self, out: &mut Vec<String>) {
        let ghost start = texts(out@);
        match self.sortable {
            Some(sortable) => {
                sortable.write_redis_args(out);
            },
            None => {
                proof {
                    lemma_written_then(start, Seq::empty(), Seq::empty());
                }
            },
        }
        write_flag(out, self.no_index, "NOINDEX");
        proof {
            lemma_written_then(
                start,
                sortable_args(self.sortable),
                flag_args(self.no_index, "NOINDEX"@),
            );
        }
    }
}

/// A text field of a schema.
#[must_use]
#[derive(Debug)]
#[non_exhaustive]
pub struct SchemaTextField {
    pub(crate) common: SchemaCommonField,
    no_stem: bool,
    weight: Option<String>,
    phonetic: Option<Phonetic>,
    with_suffix_trie: bool,
    index_empty: bool,
}

/// The mathematical content of a [`SchemaTextField`].
pub struct SchemaTextFieldView {
    pub common: SchemaCommonFieldView,
    pub no_stem: bool,
    pub weight: Option<Seq<char>>,
    pub phonetic: Option<Phonetic>,
    pub with_suffix_trie: bool,
    pub index_empty: bool,
}

impl SchemaTextFieldView {
    /// A text field with nothing set.
    pub open spec fn plain() -> SchemaTextFieldView {
        SchemaTextFieldView {
            common: SchemaCommonFieldView::plain(FieldType::Text),
            no_stem: false,
            weight: None,
            phonetic: None,
            with_suffix_trie: false,
            index_empty: false,
        }
    }

    /// The arguments of the options that only a text field has.
    pub open spec fn own_args(self) -> Seq<Seq<char>> {
        flag_args(self.no_stem, "NOSTEM"@) + optional_args("WEIGHT"@, self.weight) + optional_args(
            "PHONETIC"@,
            match self.phonetic {
                Some(phonetic) => Some(phonetic.keyword()),
                None => None,
            },
        ) + flag_args(self.with_suffix_trie, "WITHSUFFIXTRIE"@) + flag_args(
            self.index_empty,
            "INDEXEMPTY"@,
        )
    }

    /// The arguments of the field: those of the base, the field's own, and
    /// those for sorting and indexing.
    pub open spec fn args(self) -> Seq<Seq<char>> {
        self.common.base.args() + self.own_args() + self.common.args()
    }
}

impl View for SchemaTextField {
    type V = SchemaTextFieldView;

    closed spec fn view(&self) -> SchemaTextFieldView {
        SchemaTextFieldView {
            common: self.common@,
            no_stem: self.no_stem,
            weight: optional_text(self.weight),
            phonetic: self.phonetic,
            with_suffix_trie: self.with_suffix_trie,
            index_empty: self.index_empty,
        }
    }
}

impl Clone for SchemaTextField {
    fn clone(&self) -> (copy: Self)
        ensures
            copy@ == self@,
    {
        proof {
            use_type_invariant(self);
        }
        SchemaTextField {
            common: self.common.clone(),
            no_stem: self.no_stem,
            weight: clone_optional(&self.weight),
            phonetic: self.phonetic,
            with_suffix_trie: self.with_suffix_trie,
            index_empty: self.index_empty,
        }
    }
}

impl Default for SchemaTextField {
    fn default() -> (field: Self)
        ensures
            field@ == SchemaTextFieldView::plain(),
    {
        Self::new()
    }
}

impl SchemaTextField {
    #[verifier::type_invariant]
    spec fn is_text(&self) -> bool {
        self.common.base.field_type == FieldType::Text
    }

    /// A text field with nothing set.
    pub fn new() -> (field: Self)
        ensures
            field@ == SchemaTextFieldView::plain(),
    {
        SchemaTextField {
            common: SchemaCommonField::new(FieldType::Text),
            no_stem: false,
            weight: None,
            phonetic: None,
            with_suffix_trie: false,
            index_empty: false,
        }
    }

    /// Sets whether the values are indexed without stemming.
    pub fn no_stem(self, no_stem: bool) -> (field: Self)
        ensures
            field@ == (SchemaTextFieldView { no_stem, ..self@ }),
    {
        let mut field = self;
        proof {
            use_type_invariant(&field);
        }
        field.no_stem = no_stem;
        field
    }

    /// Sets the weight of the field in ranking, given as the numeral that is
    /// to stand in the command.
    pub fn weight(self, weight: &str) -> (field: Self)
        ensures
            field@ == (SchemaTextFieldView { weight: Some(weight@), ..self@ }),
    {
        let mut field = self;
        proof {
            use_type_invariant(&field);
        }
        field.weight = Some(String::from_str(weight));
        field
    }

    /// Sets the phonetic matcher of the field.
    pub fn phonetic(self, phonetic: Phonetic) -> (field: Self)
        ensures
            field@ == (SchemaTextFieldView { phonetic: Some(phonetic), ..self@ }),
    {
        let mut field = self;
        proof {
            use_type_invariant(&field);
        }
        field.phonetic = Some(phonetic);
        field
    }

    /// Sets whether a suffix trie is kept for the field.
    pub fn with_suffix_trie(self, with_suffix_trie: bool) -> (field: Self)
        ensures
            field@ == (SchemaTextFieldView { with_suffix_trie, ..self@ }),
    {
        let mut field = self;
        proof {
            use_type_invariant(&field);
        }
        field.with_suffix_trie = with_suffix_trie;
        field
    }

    /// Sets whether empty values are indexed.
    pub fn index_empty(self, index_empty: bool) -> (field: Self)
        ensures
            field@ == (SchemaTextFieldView { index_empty, ..self@ }),
    {
        let mut field = self;
        proof {
            use_type_invariant(&field);
        }
        field.index_empty = index_empty;
        field
    }

    /// Makes the field sortable.
    pub fn sortable(self, sortable: Sortable) -> (field: Self)
        ensures
            field@ == (SchemaTextFieldView {
                common: SchemaCommonFieldView { sortable: Some(sortable), ..self@.common },
                ..self@
            }),
    {
        proof {
            use_type_invariant(&self);
        }
        SchemaTextField {
            common: self.common.sortable(sortable),
            no_stem: self.no_stem,
            weight: self.weight,
            phonetic: self.phonetic,
            with_suffix_trie: self.with_suffix_trie,
            index_empty: self.index_empty,
        }
    }

    /// Sets whether the field is left out of the index.
    pub fn no_index(self, no_index: bool) -> (field: Self)
        ensures
            field@ == (SchemaTextFieldView {
                common: SchemaCommonFieldView { no_index, ..self@.common },
                ..self@
            }),
    {
        proof {
            use_type_invariant(&self);
        }
        SchemaTextField {
            common: self.common.no_index(no_index),
            no_stem: self.no_stem,
            weight: self.weight,
            phonetic: self.phonetic,
            with_suffix_trie: self.with_suffix_trie,
            index_empty: self.index_empty,
        }
    }

    /// Sets the alias of the field.
    pub fn alias(self, alias: &str) -> (field: Self)
        ensures
            field@ == (SchemaTextFieldView {
                common: SchemaCommonFieldView {
                    base: BaseSchemaFieldView { alias: Some(alias@), ..self@.common.base },
                    ..self@.common
                },
                ..self@
            }),
    {
        proof {
            use_type_invariant(&self);
        }
        SchemaTextField {
            common: self.common.alias(alias),
            no_stem: self.no_stem,
            weight: self.weight,
            phonetic: self.phonetic,
            with_suffix_trie: self.with_suffix_trie,
            index_empty: self.index_empty,
        }
    }

    /// Sets whether documents without the field are indexed.
    pub fn index_missing(self, index_missing: bool) -> (field: Self)
        ensures
            field@ == (SchemaTextFieldView {
                common: SchemaCommonFieldView {
                    base: BaseSchemaFieldView { index_missing, ..self@.common.base },
                    ..self@.common
                },
                ..self@
            }),
    {
        proof {
            use_type_invariant(&self);
        }
        SchemaTextField {
            common: self.common.index_missing(index_missing),
            no_stem: self.no_stem,
            weight: self.weight,
            phonetic: self.phonetic,
            with_suffix_trie: self.with_suffix_trie,
            index_empty: self.index_empty,
        }
    }

    fn write_own_args(&self, out: &mut Vec<String>)
        ensures
            texts(final(out)@) == texts(old(out)@) + self@.own_args(),
    {
        let ghost start = texts(out@);
        write_flag(out, self.no_stem, "NOSTEM");
        write_optional(out, "WEIGHT", &self.weight);
        let phonetic: Option<String> = match self.phonetic {
            Some(phonetic) => Some(String::from_str(phonetic.as_str())),
            None => None,
        };
        write_optional(out, "PHONETIC", &phonetic);
        write_flag(out, self.with_suffix_trie, "WITHSUFFIXTRIE");
        write_flag(out, self.index_empty, "INDEXEMPTY");
        proof {
            let a = flag_args(self.no_stem, "NOSTEM"@);
            let b = optional_args("WEIGHT"@, optional_text(self.weight));
            let c = optional_args("PHONETIC"@, optional_text(phonetic));
            let d = flag_args(self.with_suffix_trie, "WITHSUFFIXTRIE"@);
            let e = flag_args(self.index_empty, "INDEXEMPTY"@);
            lemma_written_then(start, a, b);
            lemma_written_then(start, a + b, c);
            lemma_written_then(start, a + b + c, d);
            lemma_written_then(start, a + b + c + d, e);
        }
    }
}

impl ToRedisArgs for SchemaTextField {
    open spec fn args(&self) -> Seq<Seq<char>> {
        self@.args()
    }

    fn write_redis_args(&self, out: &mut Vec<String>) {
        let ghost start = texts(out@);
        self.common.base.write_redis_args(out);
        self.write_own_args(out);
        self.common.write_redis_args(out);
        proof {
            let a = self@.common.base.args();
            let b = self@.own_args();
            let c = self@.common.args();
            lemma_written_then(start, a, b);
            lemma_written_then(start, a + b, c);
        }
    }
}

/// A tag field of a schema.
#[must_use]
#[derive(Debug)]
#[non_exhaustive]
pub struct SchemaTagField {
    pub(crate) common: SchemaCommonField,
    separator: Option<char>,
    case_sensitive: bool,
    with_suffix_trie: bool,
    index_empty: bool,
}

/// The mathematical content of a [`SchemaTagField`].
pub struct SchemaTagFieldView {
    pub common: SchemaCommonFieldView,
    pub separator: Option<char>,
    pub case_sensitive: bool,
    pub with_suffix_trie: bool,
    pub index_empty: bool,
}

impl SchemaTagFieldView {
    /// A tag field with nothing set.
    pub open spec fn plain() -> SchemaTagFieldView {
        SchemaTagFieldView {
            common: SchemaCommonFieldView::plain(FieldType::Tag),
            separator: None,
            case_sensitive: false,
            with_suffix_trie: false,
            index_empty: false,
        }
    }

    /// The arguments of the options that only a tag field has.
    pub open spec fn own_args(self) -> Seq<Seq<char>> {
        optional_args(
            "SEPARATOR"@,
            match self.separator {
                Some(separator) => Some(seq![separator]),
                None => None,
            },
        ) + flag_args(self.case_sensitive, "CASESENSITIVE"@) + flag_args(
            self.with_suffix_trie,
            "WITHSUFFIXTRIE"@,
        ) + flag_args(self.index_empty, "INDEXEMPTY"@)
    }

    /// The arguments of the field: those of the base, the field's own, and
    /// those for sorting and indexing.
    pub open spec fn args(self) -> Seq<Seq<char>> {
        self.common.base.args() + self.own_args() + self.common.args()
    }
}

impl View for SchemaTagField {
    type V = SchemaTagFieldView;

    closed spec fn view(&self) -> SchemaTagFieldView {
        SchemaTagFieldView {
            common: self.common@,
            separator: self.separator,
            case_sensitive: self.case_sensitive,
            with_suffix_trie: self.with_suffix_trie,
            index_empty: self.index_empty,
        }
    }
}

impl Clone for SchemaTagField {
    fn clone(&self) -> (copy: Self)
        ensures
            copy@ == self@,
    {
        proof {
            use_type_invariant(self);
        }
        SchemaTagField {
            common: self.common.clone(),
            separator: self.separator,
            case_sensitive: self.case_sensitive,
            with_suffix_trie: self.with_suffix_trie,
            index_empty: self.index_empty,
        }
    }
}

impl Default for SchemaTagField {
    fn default() -> (field: Self)
        ensures
            field@ == SchemaTagFieldView::plain(),
    {
        Self::new()
    }
}

impl SchemaTagField {
    #[verifier::type_invariant]
    spec fn is_tag(&self) -> bool {
        self.common.base.field_type == FieldType::Tag
    }

    /// A tag field with nothing set.
    pub fn new() -> (field: Self)
        ensures
            field@ == SchemaTagFieldView::plain(),
    {
        SchemaTagField {
            common: SchemaCommonField::new(FieldType::Tag),
            separator: None,
            case_sensitive: false,
            with_suffix_trie: false,
            index_empty: false,
        }
    }

    /// Sets the character that separates the tags of a value.
    pub fn separator(self, separator: char) -> (field: Self)
        ensures
            field@ == (SchemaTagFieldView { separator: Some(separator), ..self@ }),
    {
        let mut field = self;
        proof {
            use_type_invariant(&field);
        }
        field.separator = Some(separator);
        field
    }

    /// Sets whether the tags keep their letter case.
    pub fn case_sensitive(self, case_sensitive: bool) -> (field: Self)
        ensures
            field@ == (SchemaTagFieldView { case_sensitive, ..self@ }),
    {
        let mut field = self;
        proof {
            use_type_invariant(&field);
        }
        field.case_sensitive = case_sensitive;
        field
    }

    /// Sets whether a suffix trie is kept for the field.
    pub fn with_suffix_trie(self, with_suffix_trie: bool) -> (field: Self)
        ensures
            field@ == (SchemaTagFieldView { with_suffix_trie, ..self@ }),
    {
        let mut field = self;
        proof {
            use_type_invariant(&field);
        }
        field.with_suffix_trie = with_suffix_trie;
        field
    }

    /// Sets whether empty values are indexed.
    pub fn index_empty(self, index_empty: bool) -> (field: Self)
        ensures
            field@ == (SchemaTagFieldView { index_empty, ..self@ }),
    {
        let mut field = self;
        proof {
            use_type_invariant(&field);
        }
        field.index_empty = index_empty;
        field
    }

    /// Makes the field sortable.
    pub fn sortable(self, sortable: Sortable) -> (field: Self)
        ensures
            field@ == (SchemaTagFieldView {
                common: SchemaCommonFieldView { sortable: Some(sortable), ..self@.common },
                ..self@
            }),
    {
        proof {
            use_type_invariant(&self);
        }
        SchemaTagField {
            common: self.common.sortable(sortable),
            separator: self.separator,
            case_sensitive: self.case_sensitive,
            with_suffix_trie: self.with_suffix_trie,
            index_empty: self.index_empty,
        }
    }

    /// Sets whether the field is left out of the index.
    pub fn no_index(self, no_index: bool) -> (field: Self)
        ensures
            field@ == (SchemaTagFieldView {
                common: SchemaCommonFieldView { no_index, ..self@.common },
                ..self@
            }),
    {
        proof {
            use_type_invariant(&self);
        }
        SchemaTagField {
            common: self.common.no_index(no_index),
            separator: self.separator,
            case_sensitive: self.case_sensitive,
            with_suffix_trie: self.with_suffix_trie,
            index_empty: self.index_empty,
        }
    }

    /// Sets the alias of the field.
    pub fn alias(self, alias: &str) -> (field: Self)
        ensures
            field@ == (SchemaTagFieldView {
                common: SchemaCommonFieldView {
                    base: BaseSchemaFieldView { alias: Some(alias@), ..self@.common.base },
                    ..self@.common
                },
                ..self@
            }),
    {
        proof {
            use_type_invariant(&self);
        }
        SchemaTagField {
            common: self.common.alias(alias),
            separator: self.separator,
            case_sensitive: self.case_sensitive,
            with_suffix_trie: self.with_suffix_trie,
            index_empty: self.index_empty,
        }
    }

    /// Sets whether documents without the field are indexed.
    pub fn index_missing(self, index_missing: bool) -> (field: Self)
        ensures
            field@ == (SchemaTagFieldView {
                common: SchemaCommonFieldView {
                    base: BaseSchemaFieldView { index_missing, ..self@.common.base },
                    ..self@.common
                },
                ..self@
            }),
    {
        proof {
            use_type_invariant(&self);
        }
        SchemaTagField {
            common: self.common.index_missing(index_missing),
            separator: self.separator,
            case_sensitive: self.case_sensitive,
            with_suffix_trie: self.with_suffix_trie,
            index_empty: self.index_empty,
        }
    }

    fn write_own_args(&self, out: &mut Vec<String>)
        ensures
            texts(final(out)@) == texts(old(out)@) + self@.own_args(),
    {
        let ghost start = texts(out@);
        let separator: Option<String> = match self.separator {
            Some(separator) => {
                let mut text = String::new();
                text.push(separator);
                Some(text)
            },
            None => None,
        };
        write_optional(out, "SEPARATOR", &separator);
        write_flag(out, self.case_sensitive, "CASESENSITIVE");
        write_flag(out, self.with_suffix_trie, "WITHSUFFIXTRIE");
        write_flag(out, self.index_empty, "INDEXEMPTY");
        proof {
            let a = optional_args("SEPARATOR"@, optional_text(separator));
            let b = flag_args(self.case_sensitive, "CASESENSITIVE"@);
            let c = flag_args(self.with_suffix_trie, "WITHSUFFIXTRIE"@);
            let d = flag_args(self.index_empty, "INDEXEMPTY"@);
            lemma_written_then(start, a, b);
            lemma_written_then(start, a + b, c);
            lemma_written_then(start, a + b + c, d);
        }
    }
}

impl ToRedisArgs for SchemaTagField {
    open spec fn args(&self) -> Seq<Seq<char>> {
        self@.args()
    }

    fn write_redis_args(&self, out: &mut Vec<String>) {
        let ghost start = texts(out@);
        self.common.base.write_redis_args(out);
        self.write_own_args(out);
        self.common.write_redis_args(out);
        proof {
            let a = self@.common.base.args();
            let b = self@.own_args();
            let c = self@.common.args();
            lemma_written_then(start, a, b);
            lemma_written_then(start, a + b, c);
        }
    }
}

/// A numeric field of a schema.
#[must_use]
#[derive(Debug)]
#[non_exhaustive]
pub struct SchemaNumericField {
    pub(crate) common: SchemaCommonField,
}

/// The mathematical content of a [`SchemaNumericField`].
pub struct SchemaNumericFieldView {
    pub common: SchemaCommonFieldView,
}

impl SchemaNumericFieldView {
    /// A numeric field with nothing set.
    pub open spec fn plain() -> SchemaNumericFieldView {
        SchemaNumericFieldView { common: SchemaCommonFieldView::plain(FieldType::Numeric) }
    }

    /// The arguments of the field: those of the base, and those for sorting
    /// and indexing.
    pub open spec fn args(self) -> Seq<Seq<char>> {
        self.common.base.args() + self.common.args()
    }
}

impl View for SchemaNumericField {
    type V = SchemaNumericFieldView;

    closed spec fn view(&self) -> SchemaNumericFieldView {
        SchemaNumericFieldView { common: self.common@ }
    }
}

impl Clone for SchemaNumericField {
    fn clone(&self) -> (copy: Self)
        ensures
            copy@ == self@,
    {
        proof {
            use_type_invariant(self);
        }
        SchemaNumericField { common: self.common.clone() }
    }
}

impl Default for SchemaNumericField {
    fn default() -> (field: Self)
        ensures
            field@ == SchemaNumericFieldView::plain(),
    {
        Self::new()
    }
}

impl SchemaNumericField {
    #[verifier::type_invariant]
    spec fn is_numeric(&self) -> bool {
        self.common.base.field_type == FieldType::Numeric
    }

    /// A numeric field with nothing set.
    pub fn new() -> (field: Self)
        ensures
            field@ == SchemaNumericFieldView::plain(),
    {
        SchemaNumericField { common: SchemaCommonField::new(FieldType::Numeric) }
    }

    /// Makes the field sortable.
    pub fn sortable(self, sortable: Sortable) -> (field: Self)
        ensures
            field@ == (SchemaNumericFieldView {
                common: SchemaCommonFieldView { sortable: Some(sortable), ..self@.common },
                ..self@
            }),
    {
        proof {
            use_type_invariant(&self);
        }
        SchemaNumericField {
            common: self.common.sortable(sortable),
        }
    }

    /// Sets whether the field is left out of the index.
    pub fn no_index(self, no_index: bool) -> (field: Self)
        ensures
            field@ == (SchemaNumericFieldView {
                common: SchemaCommonFieldView { no_index, ..self@.common },
                ..self@
            }),
    {
        proof {
            use_type_invariant(&self);
        }
        SchemaNumericField {
            common: self.common.no_index(no_index),
        }
    }

    /// Sets the alias of the field.
    pub fn alias(self, alias: &str) -> (field: Self)
        ensures
            field@ == (SchemaNumericFieldView {
                common: SchemaCommonFieldView {
                    base: BaseSchemaFieldView { alias: Some(alias@), ..self@.common.base },
                    ..self@.common
                },
                ..self@
            }),
    {
        proof {
            use_type_invariant(&self);
        }
        SchemaNumericField {
            common: self.common.alias(alias),
        }
    }

    /// Sets whether documents without the field are indexed.
    pub fn index_missing(self, index_missing: bool) -> (field: Self)
        ensures
            field@ == (SchemaNumericFieldView {
                common: SchemaCommonFieldView {
                    base: BaseSchemaFieldView { index_missing, ..self@.common.base },
                    ..self@.common
                },
                ..self@
            }),
    {
        proof {
            use_type_invariant(&self);
        }
        SchemaNumericField {
            common: self.common.index_missing(index_missing),
        }
    }
}

impl ToRedisArgs for SchemaNumericField {
    open spec fn args(&self) -> Seq<Seq<char>> {
        self@.args()
    }

    fn write_redis_args(&self, out: &mut Vec<String>) {
        let ghost start = texts(out@);
        self.common.base.write_redis_args(out);
        self.common.write_redis_args(out);
        proof {
            lemma_written_then(start, self@.common.base.args(), self@.common.args());
        }
    }
}

/// A geo field of a schema.
#[must_use]
#[derive(Debug)]
#[non_exhaustive]
pub struct SchemaGeoField {
    pub(crate) common: SchemaCommonField,
}

/// The mathematical content of a [`SchemaGeoField`].
pub struct SchemaGeoFieldView {
    pub common: SchemaCommonFieldView,
}

impl SchemaGeoFieldView {
    /// A geo field with nothing set.
    pub open spec fn plain() -> SchemaGeoFieldView {
        SchemaGeoFieldView { common: SchemaCommonFieldView::plain(FieldType::Geo) }
    }

    /// The arguments of the field: those of the base, and those for sorting
    /// and indexing.
    pub open spec fn args(self) -> Seq<Seq<char>> {
        self.common.base.args() + self.common.args()
    }
}

impl View for SchemaGeoField {
    type V = SchemaGeoFieldView;

    closed spec fn view(&self) -> SchemaGeoFieldView {
        SchemaGeoFieldView { common: self.common@ }
    }
}

impl Clone for SchemaGeoField {
    fn clone(&self) -> (copy: Self)
        ensures
            copy@ == self@,
    {
        proof {
            use_type_invariant(self);
        }
        SchemaGeoField { common: self.common.clone() }
    }
}

impl Default for SchemaGeoField {
    fn default() -> (field: Self)
        ensures
            field@ == SchemaGeoFieldView::plain(),
    {
        Self::new()
    }
}

impl SchemaGeoField {
    #[verifier::type_invariant]
    spec fn is_geo(&self) -> bool {
        self.common.base.field_type == FieldType::Geo
    }

    /// A geo field with nothing set.
    pub fn new() -> (field: Self)
        ensures
            field@ == SchemaGeoFieldView::plain(),
    {
        SchemaGeoField { common: SchemaCommonField::new(FieldType::Geo) }
    }

    /// Makes the field sortable.
    pub fn sortable(self, sortable: Sortable) -> (field: Self)
        ensures
            field@ == (SchemaGeoFieldView {
                common: SchemaCommonFieldView { sortable: Some(sortable), ..self@.common },
                ..self@
            }),
    {
        proof {
            use_type_invariant(&self);
        }
        SchemaGeoField {
            common: self.common.sortable(sortable),
        }
    }

    /// Sets whether the field is left out of the index.
    pub fn no_index(self, no_index: bool) -> (field: Self)
        ensures
            field@ == (SchemaGeoFieldView {
                common: SchemaCommonFieldView { no_index, ..self@.common },
                ..self@
            }),
    {
        proof {
            use_type_invariant(&self);
        }
        SchemaGeoField {
            common: self.common.no_index(no_index),
        }
    }

    /// Sets the alias of the field.
    pub fn alias(self, alias: &str) -> (field: Self)
        ensures
            field@ == (SchemaGeoFieldView {
                common: SchemaCommonFieldView {
                    base: BaseSchemaFieldView { alias: Some(alias@), ..self@.common.base },
                    ..self@.common
                },
                ..self@
            }),
    {
        proof {
            use_type_invariant(&self);
        }
        SchemaGeoField {
            common: self.common.alias(alias),
        }
    }

    /// Sets whether documents without the field are indexed.
    pub fn index_missing(self, index_missing: bool) -> (field: Self)
        ensures
            field@ == (SchemaGeoFieldView {
                common: SchemaCommonFieldView {
                    base: BaseSchemaFieldView { index_missing, ..self@.common.base },
                    ..self@.common
                },
                ..self@
            }),
    {
        proof {
            use_type_invariant(&self);
        }
        SchemaGeoField {
            common: self.common.index_missing(index_missing),
        }
    }
}

impl ToRedisArgs for SchemaGeoField {
    open spec fn args(&self) -> Seq<Seq<char>> {
        self@.args()
    }

    fn write_redis_args(&self, out: &mut Vec<String>) {
        let ghost start = texts(out@);
        self.common.base.write_redis_args(out);
        self.common.write_redis_args(out);
        proof {
            lemma_written_then(start, self@.common.base.args(), self@.common.args());
        }
    }
}

/// What every vector field has: the base, the indexing algorithm, the
/// component type, the dimension and the distance metric.
#[derive(Debug)]
#[non_exhaustive]
pub struct SchemaVectorField {
    base: BaseSchemaField,
    algorithm: VectorAlgorithm,
    vector_type: VectorType,
    dim: u32,
    distance_metric: DistanceMetric,
}

/// The mathematical content of a [`SchemaVectorField`].
pub struct SchemaVectorFieldView {
    pub base: BaseSchemaFieldView,
    pub algorithm: VectorAlgorithm,
    pub vector_type: VectorType,
    pub dim: u32,
    pub distance_metric: DistanceMetric,
}

impl SchemaVectorFieldView {
    /// A vector field without an alias.
    pub open spec fn plain(
        algorithm: VectorAlgorithm,
        vector_type: VectorType,
        dim: u32,
        distance_metric: DistanceMetric,
    ) -> SchemaVectorFieldView {
        SchemaVectorFieldView {
            base: BaseSchemaFieldView {
                field_type: FieldType::Vector,
                alias: None,
                index_missing: false,
            },
            algorithm,
            vector_type,
            dim,
            distance_metric,
        }
    }

    /// The arguments that open the field: the alias, the type and the
    /// algorithm.
    pub open spec fn args(self) -> Seq<Seq<char>> {
        self.base.alias_args() + seq![self.base.field_type.keyword()] + seq![
            self.algorithm.keyword(),
        ]
    }

    /// The attributes every vector field has: component type, dimension and
    /// distance metric, each behind its keyword.
    pub open spec fn attribute_args(self) -> Seq<Seq<char>> {
        seq![
            "TYPE"@,
            self.vector_type.keyword(),
            "DIM"@,
            decimal(self.dim as nat),
            "DISTANCE_METRIC"@,
            self.distance_metric.keyword(),
        ]
    }
}

impl View for SchemaVectorField {
    type V = SchemaVectorFieldView;

    closed spec fn view(&self) -> SchemaVectorFieldView {
        SchemaVectorFieldView {
            base: self.base@,
            algorithm: self.algorithm,
            vector_type: self.vector_type,
            dim: self.dim,
            distance_metric: self.distance_metric,
        }
    }
}

impl Clone for SchemaVectorField {
    fn clone(&self) -> (copy: Self)
        ensures
            copy@ == self@,
    {
        proof {
            use_type_invariant(self);
        }
        SchemaVectorField {
            base: self.base.clone(),
            algorithm: self.algorithm,
            vector_type: self.vector_type,
            dim: self.dim,
            distance_metric: self.distance_metric,
        }
    }
}

impl SchemaVectorField {
    #[verifier::type_invariant]
    spec fn is_vector(&self) -> bool {
        self.base.field_type == FieldType::Vector && self.dim > 0
    }

    /// A vector field without an alias.
    fn new(
        algorithm: VectorAlgorithm,
        vector_type: VectorType,
        dim: u32,
        distance_metric: DistanceMetric,
    ) -> (field: Self)
        requires
            dim > 0,
        ensures
            field@ == SchemaVectorFieldView::plain(algorithm, vector_type, dim, distance_metric),
    {
        SchemaVectorField {
            base: BaseSchemaField::new(FieldType::Vector),
            algorithm,
            vector_type,
            dim,
            distance_metric,
        }
    }

    /// Sets the alias of the field.
    fn alias(self, alias: &str) -> (field: Self)
        ensures
            field@ == (SchemaVectorFieldView {
                base: BaseSchemaFieldView { alias: Some(alias@), ..self@.base },
                ..self@
            }),
    {
        proof {
            use_type_invariant(&self);
        }
        SchemaVectorField {
            base: self.base.alias(alias),
            algorithm: self.algorithm,
            vector_type: self.vector_type,
            dim: self.dim,
            distance_metric: self.distance_metric,
        }
    }

    /// Sets whether documents without the field are indexed.
    fn index_missing(self, index_missing: bool) -> (field: Self)
        ensures
            field@ == (SchemaVectorFieldView {
                base: BaseSchemaFieldView { index_missing, ..self@.base },
                ..self@
            }),
    {
        proof {
            use_type_invariant(&self);
        }
        SchemaVectorField {
            base: self.base.index_missing(index_missing),
            algorithm: self.algorithm,
            vector_type: self.vector_type,
            dim: self.dim,
            distance_metric: self.distance_metric,
        }
    }

    /// The number of arguments the attributes of every vector field take.
    pub fn num_of_args(&self) -> (count: usize)
        ensures
            count == self@.attribute_args().len(),
            count == 6,
    {
        6
    }

    /// Appends the attributes every vector field has to `out`.
    fn write_attributes(&self, out: &mut Vec<String>)
        ensures
            texts(final(out)@) == texts(old(out)@) + self@.attribute_args(),
    {
        write_arg(out, "TYPE");
        self.vector_type.write_redis_args(out);
        write_arg(out, "DIM");
        write_number(out, self.dim as u64);
        write_arg(out, "DISTANCE_METRIC");
        self.distance_metric.write_redis_args(out);
    }
}

impl ToRedisArgs for SchemaVectorField {
    open spec fn args(&self) -> Seq<Seq<char>> {
        self@.args()
    }

    fn write_redis_args(&self, out: &mut Vec<String>) {
        let ghost start = texts(out@);
        self.base.write_alias(out);
        self.base.field_type.write_redis_args(out);
        self.algorithm.write_redis_args(out);
        proof {
            let a = self@.base.alias_args();
            let b = seq![self@.base.field_type.keyword()];
            let c = seq![self@.algorithm.keyword()];
            lemma_written_then(start, a, b);
            lemma_written_then(start, a + b, c);
        }
    }
}

/// The number as a `u64`, where there is one.
pub open spec fn widened(value: Option<u32>) -> Option<u64> {
    match value {
        Some(n) => Some(n as u64),
        None => None,
    }
}

/// The number as a `u64`, where there is one.
pub fn widen(value: Option<u32>) -> (wide: Option<u64>)
    ensures
        wide == widened(value),
{
    match value {
        Some(n) => Some(n as u64),
        None => None,
    }
}

/// The number of arguments an optional attribute takes: two if it is set.
pub open spec fn attribute_len(set: bool) -> nat {
    if set {
        2
    } else {
        0
    }
}

/// The options of a vector field indexed by the FLAT algorithm.
#[derive(Debug, Clone, Copy, PartialEq, Eq, Structural)]
#[non_exhaustive]
pub struct FlatVectorOptions {
    block_size: Option<u32>,
}

impl FlatVectorOptions {
    /// The size of the blocks vectors are stored in, if it is set.
    pub closed spec fn block_size(self) -> Option<u32> {
        self.block_size
    }

    /// The arguments of the options that are set.
    pub open spec fn attribute_args(self) -> Seq<Seq<char>> {
        optional_number_args("BLOCK_SIZE"@, widened(self.block_size()))
    }

    /// The number of arguments the options that are set take.
    pub fn num_of_args(&self) -> (count: usize)
        ensures
            count == self.attribute_args().len(),
            count == attribute_len(self.block_size() is Some),
    {
        let mut count: usize = 0;
        if self.block_size.is_some() {
            count += 2;
        }
        count
    }
}

impl ToRedisArgs for FlatVectorOptions {
    open spec fn args(&self) -> Seq<Seq<char>> {
        self.attribute_args()
    }

    fn write_redis_args(&self, out: &mut Vec<String>) {
        write_optional_number(out, "BLOCK_SIZE", widen(self.block_size));
    }
}

/// The options of a vector field indexed by the HNSW algorithm.
#[derive(Debug)]
#[non_exhaustive]
pub struct HnswVectorOptions {
    m: Option<u32>,
    ef_construction: Option<u32>,
    ef_runtime: Option<u32>,
    epsilon: Option<String>,
}

/// The mathematical content of a [`HnswVectorOptions`].
pub struct HnswVectorOptionsView {
    pub m: Option<u32>,
    pub ef_construction: Option<u32>,
    pub ef_runtime: Option<u32>,
    pub epsilon: Option<Seq<char>>,
}

impl HnswVectorOptionsView {
    /// The options with nothing set.
    pub open spec fn empty() -> HnswVectorOptionsView {
        HnswVectorOptionsView { m: None, ef_construction: None, ef_runtime: None, epsilon: None }
    }

    /// The arguments of the options that are set.
    pub open spec fn attribute_args(self) -> Seq<Seq<char>> {
        optional_number_args("M"@, widened(self.m)) + optional_number_args(
            "EF_CONSTRUCTION"@,
            widened(self.ef_construction),
        ) + optional_number_args("EF_RUNTIME"@, widened(self.ef_runtime)) + optional_args(
            "EPSILON"@,
            self.epsilon,
        )
    }

    /// The number of arguments the options that are set take.
    pub open spec fn attribute_count(self) -> nat {
        attribute_len(self.m is Some) + attribute_len(self.ef_construction is Some)
            + attribute_len(self.ef_runtime is Some) + attribute_len(self.epsilon is Some)
    }
}

/// The arguments of the options of an HNSW index are as many as are counted.
pub proof fn lemma_hnsw_attribute_count(options: HnswVectorOptionsView)
    ensures
        options.attribute_args().len() == options.attribute_count(),
{
}

impl View for HnswVectorOptions {
    type V = HnswVectorOptionsView;

    closed spec fn view(&self) -> HnswVectorOptionsView {
        HnswVectorOptionsView {
            m: self.m,
            ef_construction: self.ef_construction,
            ef_runtime: self.ef_runtime,
            epsilon: optional_text(self.epsilon),
        }
    }
}

impl Clone for HnswVectorOptions {
    fn clone(&self) -> (copy: Self)
        ensures
            copy@ == self@,
    {
        HnswVectorOptions {
            m: self.m,
            ef_construction: self.ef_construction,
            ef_runtime: self.ef_runtime,
            epsilon: clone_optional(&self.epsilon),
        }
    }
}

impl HnswVectorOptions {
    /// The number of arguments the options that are set take.
    pub fn num_of_args(&self) -> (count: usize)
        ensures
            count == self@.attribute_args().len(),
            count == self@.attribute_count(),
    {
        let mut count: usize = 0;
        if self.m.is_some() {
            count += 2;
        }
        if self.ef_construction.is_some() {
            count += 2;
        }
        if self.ef_runtime.is_some() {
            count += 2;
        }
        if self.epsilon.is_some() {
            count += 2;
        }
        proof {
            lemma_hnsw_attribute_count(self@);
        }
        count
    }
}

impl ToRedisArgs for HnswVectorOptions {
    open spec fn args(&self) -> Seq<Seq<char>> {
        self@.attribute_args()
    }

    fn write_redis_args(&self, out: &mut Vec<String>) {
        let ghost start = texts(out@);
        write_optional_number(out, "M", widen(self.m));
        write_optional_number(out, "EF_CONSTRUCTION", widen(self.ef_construction));
        write_optional_number(out, "EF_RUNTIME", widen(self.ef_runtime));
        write_optional(out, "EPSILON", &self.epsilon);
        proof {
            let a = optional_number_args("M"@, widened(self.m));
            let b = optional_number_args("EF_CONSTRUCTION"@, widened(self.ef_construction));
            let c = optional_number_args("EF_RUNTIME"@, widened(self.ef_runtime));
            let d = optional_args("EPSILON"@, optional_text(self.epsilon));
            lemma_written_then(start, a, b);
            lemma_written_then(start, a + b, c);
            lemma_written_then(start, a + b + c, d);
        }
    }
}

/// The options of a vector field indexed by the VAMANA algorithm.
#[derive(Debug)]
#[non_exhaustive]
pub struct VamanaVectorOptions {
    compression: Option<CompressionType>,
    construction_window_size: Option<u32>,
    graph_max_degree: Option<u32>,
    search_window_size: Option<u32>,
    epsilon: Option<String>,
    training_threshold: Option<u32>,
    reduce: Option<u32>,
}

/// The mathematical content of a [`VamanaVectorOptions`].
pub struct VamanaVectorOptionsView {
    pub compression: Option<CompressionType>,
    pub construction_window_size: Option<u32>,
    pub graph_max_degree: Option<u32>,
    pub search_window_size: Option<u32>,
    pub epsilon: Option<Seq<char>>,
    pub training_threshold: Option<u32>,
    pub reduce: Option<u32>,
}

impl VamanaVectorOptionsView {
    /// The options with nothing set.
    pub open spec fn empty() -> VamanaVectorOptionsView {
        VamanaVectorOptionsView {
            compression: None,
            construction_window_size: None,
            graph_max_degree: None,
            search_window_size: None,
            epsilon: None,
            training_threshold: None,
            reduce: None,
        }
    }

    /// The arguments of the options on the graph that are set.
    pub open spec fn graph_args(self) -> Seq<Seq<char>> {
        optional_args(
            "COMPRESSION"@,
            match self.compression {
                Some(compression) => Some(compression.keyword()),
                None => None,
            },
        ) + optional_number_args(
            "CONSTRUCTION_WINDOW_SIZE"@,
            widened(self.construction_window_size),
        ) + optional_number_args("GRAPH_MAX_DEGREE"@, widened(self.graph_max_degree))
            + optional_number_args("SEARCH_WINDOW_SIZE"@, widened(self.search_window_size))
    }

    /// The arguments of the options on search and training that are set.
    pub open spec fn tuning_args(self) -> Seq<Seq<char>> {
        optional_args("EPSILON"@, self.epsilon) + optional_number_args(
            "TRAINING_THRESHOLD"@,
            widened(self.training_threshold),
        ) + optional_number_args("REDUCE"@, widened(self.reduce))
    }

    /// The arguments of the options that are set.
    pub open spec fn attribute_args(self) -> Seq<Seq<char>> {
        self.graph_args() + self.tuning_args()
    }

    /// The number of arguments the options that are set take.
    pub open spec fn attribute_count(self) -> nat {
        attribute_len(self.compression is Some) + attribute_len(
            self.construction_window_size is Some,
        ) + attribute_len(self.graph_max_degree is Some) + attribute_len(
            self.search_window_size is Some,
        ) + attribute_len(self.epsilon is Some) + attribute_len(self.training_threshold is Some)
            + attribute_len(self.reduce is Some)
    }
}

/// The arguments of the options of a VAMANA index are as many as are
/// counted.
pub proof fn lemma_vamana_attribute_count(options: VamanaVectorOptionsView)
    ensures
        options.attribute_args().len() == options.attribute_count(),
{
}

impl View for VamanaVectorOptions {
    type V = VamanaVectorOptionsView;

    closed spec fn view(&self) -> VamanaVectorOptionsView {
        VamanaVectorOptionsView {
            compression: self.compression,
            construction_window_size: self.construction_window_size,
            graph_max_degree: self.graph_max_degree,
            search_window_size: self.search_window_size,
            epsilon: optional_text(self.epsilon),
            training_threshold: self.training_threshold,
            reduce: self.reduce,
        }
    }
}

impl Clone for VamanaVectorOptions {
    fn clone(&self) -> (copy: Self)
        ensures
            copy@ == self@,
    {
        VamanaVectorOptions {
            compression: self.compression,
            construction_window_size: self.construction_window_size,
            graph_max_degree: self.graph_max_degree,
            search_window_size: self.search_window_size,
            epsilon: clone_optional(&self.epsilon),
            training_threshold: self.training_threshold,
            reduce: self.reduce,
        }
    }
}

impl VamanaVectorOptions {
    /// The number of arguments the options that are set take.
    pub fn num_of_args(&self) -> (count: usize)
        ensures
            count == self@.attribute_args().len(),
            count == self@.attribute_count(),
    {
        let mut count: usize = 0;
        if self.compression.is_some() {
            count += 2;
        }
        if self.construction_window_size.is_some() {
            count += 2;
        }
        if self.graph_max_degree.is_some() {
            count += 2;
        }
        if self.search_window_size.is_some() {
            count += 2;
        }
        if self.epsilon.is_some() {
            count += 2;
        }
        if self.training_threshold.is_some() {
            count += 2;
        }
        if self.reduce.is_some() {
            count += 2;
        }
        proof {
            lemma_vamana_attribute_count(self@);
        }
        count
    }

    fn write_graph_args(&self, out: &mut Vec<String>)
        ensures
            texts(final(out)@) == texts(old(out)@) + self@.graph_args(),
    {
        let ghost start = texts(out@);
        let compression: Option<String> = match self.compression {
            Some(compression) => Some(String::from_str(compression.as_str())),
            None => None,
        };
        write_optional(out, "COMPRESSION", &compression);
        write_optional_number(
            out,
            "CONSTRUCTION_WINDOW_SIZE",
            widen(self.construction_window_size),
        );
        write_optional_number(out, "GRAPH_MAX_DEGREE", widen(self.graph_max_degree));
        write_optional_number(out, "SEARCH_WINDOW_SIZE", widen(self.search_window_size));
        proof {
            let a = optional_args("COMPRESSION"@, optional_text(compression));
            let b = optional_number_args(
                "CONSTRUCTION_WINDOW_SIZE"@,
                widened(self.construction_window_size),
            );
            let c = optional_number_args("GRAPH_MAX_DEGREE"@, widened(self.graph_max_degree));
            let d = optional_number_args("SEARCH_WINDOW_SIZE"@, widened(self.search_window_size));
            lemma_written_then(start, a, b);
            lemma_written_then(start, a + b, c);
            lemma_written_then(start, a + b + c, d);
        }
    }

    fn write_tuning_args(&self, out: &mut Vec<String>)
        ensures
            texts(final(out)@) == texts(old(out)@) + self@.tuning_args(),
    {
        let ghost start = texts(out@);
        write_optional(out, "EPSILON", &self.epsilon);
        write_optional_number(out, "TRAINING_THRESHOLD", widen(self.training_threshold));
        write_optional_number(out, "REDUCE", widen(self.reduce));
        proof {
            let a = optional_args("EPSILON"@, optional_text(self.epsilon));
            let b = optional_number_args("TRAINING_THRESHOLD"@, widened(self.training_threshold));
            let c = optional_number_args("REDUCE"@, widened(self.reduce));
            lemma_written_then(start, a, b);
            lemma_written_then(start, a + b, c);
        }
    }
}

impl ToRedisArgs for VamanaVectorOptions {
    open spec fn args(&self) -> Seq<Seq<char>> {
        self@.attribute_args()
    }

    fn write_redis_args(&self, out: &mut Vec<String>) {
        let ghost start = texts(out@);
        self.write_graph_args(out);
        self.write_tuning_args(out);
        proof {
            lemma_written_then(start, self@.graph_args(), self@.tuning_args());
        }
    }
}

/// The options of a vector field, by indexing algorithm.
pub enum VectorOptionsView {
    Flat(FlatVectorOptions),
    Hnsw(HnswVectorOptionsView),
    Vamana(VamanaVectorOptionsView),
}

impl VectorOptionsView {
    /// The arguments of the options that are set.
    pub open spec fn attribute_args(self) -> Seq<Seq<char>> {
        match self {
            VectorOptionsView::Flat(options) => options.attribute_args(),
            VectorOptionsView::Hnsw(options) => options.attribute_args(),
            VectorOptionsView::Vamana(options) => options.attribute_args(),
        }
    }
}

/// The mathematical content of a [`VectorField`].
pub struct VectorFieldView {
    pub base: SchemaVectorFieldView,
    pub options: VectorOptionsView,
}

impl VectorFieldView {
    /// The number of arguments the attributes of the field take: those every
    /// vector field has and those of the options that are set.
    pub open spec fn attribute_count(self) -> nat {
        self.base.attribute_args().len() + self.options.attribute_args().len()
    }

    /// The arguments of the field: the opening, the number of arguments the
    /// attributes take, the attributes every vector field has, those of the
    /// options, and the flag for documents without the field.
    pub open spec fn args(self) -> Seq<Seq<char>> {
        self.base.args() + seq![decimal(self.attribute_count())] + self.base.attribute_args()
            + self.options.attribute_args() + self.base.base.index_missing_args()
    }
}

/// A vector field of a schema, indexed by one of three algorithms.
#[must_use]
#[derive(Debug)]
#[non_exhaustive]
pub enum VectorField {
    /// Brute-force exact search.
    Flat(SchemaVectorField, FlatVectorOptions),
    /// Approximate search over a hierarchical navigable small world graph.
    Hnsw(SchemaVectorField, HnswVectorOptions),
    /// Approximate search over a Vamana graph, with compression.
    Vamana(SchemaVectorField, VamanaVectorOptions),
}

impl View for VectorField {
    type V = VectorFieldView;

    open spec fn view(&self) -> VectorFieldView {
        match self {
            VectorField::Flat(base, options) => VectorFieldView {
                base: base@,
                options: VectorOptionsView::Flat(*options),
            },
            VectorField::Hnsw(base, options) => VectorFieldView {
                base: base@,
                options: VectorOptionsView::Hnsw(options@),
            },
            VectorField::Vamana(base, options) => VectorFieldView {
                base: base@,
                options: VectorOptionsView::Vamana(options@),
            },
        }
    }
}

impl Clone for VectorField {
    fn clone(&self) -> (copy: Self)
        ensures
            copy@ == self@,
    {
        match self {
            VectorField::Flat(base, options) => VectorField::Flat(base.clone(), *options),
            VectorField::Hnsw(base, options) => VectorField::Hnsw(base.clone(), options.clone()),
            VectorField::Vamana(base, options) => VectorField::Vamana(
                base.clone(),
                options.clone(),
            ),
        }
    }
}

impl VectorField {
    /// Sets the alias of the field.
    pub fn alias(self, alias: &str) -> (field: Self)
        ensures
            field@ == (VectorFieldView {
                base: SchemaVectorFieldView {
                    base: BaseSchemaFieldView { alias: Some(alias@), ..self@.base.base },
                    ..self@.base
                },
                ..self@
            }),
    {
        match self {
            VectorField::Flat(base, options) => VectorField::Flat(base.alias(alias), options),
            VectorField::Hnsw(base, options) => VectorField::Hnsw(base.alias(alias), options),
            VectorField::Vamana(base, options) => VectorField::Vamana(base.alias(alias), options),
        }
    }

    /// Sets whether documents without the field are indexed.
    pub fn index_missing(self, index_missing: bool) -> (field: Self)
        ensures
            field@ == (VectorFieldView {
                base: SchemaVectorFieldView {
                    base: BaseSchemaFieldView { index_missing, ..self@.base.base },
                    ..self@.base
                },
                ..self@
            }),
    {
        match self {
            VectorField::Flat(base, options) => VectorField::Flat(
                base.index_missing(index_missing),
                options,
            ),
            VectorField::Hnsw(base, options) => VectorField::Hnsw(
                base.index_missing(index_missing),
                options,
            ),
            VectorField::Vamana(base, options) => VectorField::Vamana(
                base.index_missing(index_missing),
                options,
            ),
        }
    }

    /// A builder of a vector field indexed by the FLAT algorithm. The
    /// dimension must be positive.
    pub fn flat(vector_type: VectorType, dim: u32, distance_metric: DistanceMetric) -> (builder:
        FlatVectorFieldBuilder)
        requires
            dim > 0,
        ensures
            builder@ == (FlatVectorFieldBuilderView {
                base: SchemaVectorFieldView::plain(
                    VectorAlgorithm::Flat,
                    vector_type,
                    dim,
                    distance_metric,
                ),
                block_size: None,
            }),
    {
        FlatVectorFieldBuilder {
            base: SchemaVectorField::new(VectorAlgorithm::Flat, vector_type, dim, distance_metric),
            block_size: None,
        }
    }

    /// A builder of a vector field indexed by the HNSW algorithm. The
    /// dimension must be positive.
    pub fn hnsw(vector_type: VectorType, dim: u32, distance_metric: DistanceMetric) -> (builder:
        HnswVectorFieldBuilder)
        requires
            dim > 0,
        ensures
            builder@ == (HnswVectorFieldBuilderView {
                base: SchemaVectorFieldView::plain(
                    VectorAlgorithm::Hnsw,
                    vector_type,
                    dim,
                    distance_metric,
                ),
                options: HnswVectorOptionsView::empty(),
            }),
    {
        HnswVectorFieldBuilder {
            base: SchemaVectorField::new(VectorAlgorithm::Hnsw, vector_type, dim, distance_metric),
            m: None,
            ef_construction: None,
            ef_runtime: None,
            epsilon: None,
        }
    }

    /// A builder of a vector field indexed by the VAMANA algorithm. The
    /// dimension must be positive.
    pub fn vamana(vector_type: VamanaVectorType, dim: u32, distance_metric: DistanceMetric) -> (builder:
        VamanaVectorFieldBuilder)
        requires
            dim > 0,
        ensures
            builder@ == (VamanaVectorFieldBuilderView {
                base: SchemaVectorFieldView::plain(
                    VectorAlgorithm::Vamana,
                    vector_type.vector_type(),
                    dim,
                    distance_metric,
                ),
                options: VamanaVectorOptionsView::empty(),
            }),
    {
        VamanaVectorFieldBuilder {
            base: SchemaVectorField::new(
                VectorAlgorithm::Vamana,
                VectorType::from(vector_type),
                dim,
                distance_metric,
            ),
            compression: None,
            construction_window_size: None,
            graph_max_degree: None,
            search_window_size: None,
            epsilon: None,
            training_threshold: None,
            reduce: None,
        }
    }

    fn base(&self) -> (base: &SchemaVectorField)
        ensures
            base@ == self@.base,
    {
        match self {
            VectorField::Flat(base, _) => base,
            VectorField::Hnsw(base, _) => base,
            VectorField::Vamana(base, _) => base,
        }
    }

    /// The number of arguments the attributes of the field take.
    fn attributes_count(&self) -> (count: usize)
        ensures
            count == self@.attribute_count(),
            count <= 20,
    {
        match self {
            VectorField::Flat(base, options) => base.num_of_args() + options.num_of_args(),
            VectorField::Hnsw(base, options) => base.num_of_args() + options.num_of_args(),
            VectorField::Vamana(base, options) => base.num_of_args() + options.num_of_args(),
        }
    }

    fn write_option_args(&self, out: &mut Vec<String>)
        ensures
            texts(final(out)@) == texts(old(out)@) + self@.options.attribute_args(),
    {
        match self {
            VectorField::Flat(_, options) => options.write_redis_args(out),
            VectorField::Hnsw(_, options) => options.write_redis_args(out),
            VectorField::Vamana(_, options) => options.write_redis_args(out),
        }
    }
}

impl ToRedisArgs for VectorField {
    open spec fn args(&self) -> Seq<Seq<char>> {
        self@.args()
    }

    fn write_redis_args(&self, out: &mut Vec<String>) {
        let ghost start = texts(out@);
        let base = self.base();
        base.write_redis_args(out);
        let attributes_count = self.attributes_count();
        write_number(out, attributes_count as u64);
        base.write_attributes(out);
        self.write_option_args(out);
        base.base.write_index_missing(out);
        proof {
            let a = self@.base.args();
            let b = seq![decimal(self@.attribute_count())];
            let c = self@.base.attribute_args();
            let d = self@.options.attribute_args();
            let e = self@.base.base.index_missing_args();
            lemma_written_then(start, a, b);
            lemma_written_then(start, a + b, c);
            lemma_written_then(start, a + b + c, d);
            lemma_written_then(start, a + b + c + d, e);
        }
    }
}

/// A builder of a vector field indexed by the FLAT algorithm.
#[must_use]
#[derive(Debug)]
#[non_exhaustive]
pub struct FlatVectorFieldBuilder {
    base: SchemaVectorField,
    block_size: Option<u32>,
}

/// The mathematical content of a [`FlatVectorFieldBuilder`].
pub struct FlatVectorFieldBuilderView {
    pub base: SchemaVectorFieldView,
    pub block_size: Option<u32>,
}

impl View for FlatVectorFieldBuilder {
    type V = FlatVectorFieldBuilderView;

    closed spec fn view(&self) -> FlatVectorFieldBuilderView {
        FlatVectorFieldBuilderView { base: self.base@, block_size: self.block_size }
    }
}

impl Clone for FlatVectorFieldBuilder {
    fn clone(&self) -> (copy: Self)
        ensures
            copy@ == self@,
    {
        FlatVectorFieldBuilder { base: self.base.clone(), block_size: self.block_size }
    }
}

impl FlatVectorFieldBuilder {
    /// Sets the number of vectors stored in one block.
    pub fn block_size(self, block_size: u32) -> (builder: Self)
        ensures
            builder@ == (FlatVectorFieldBuilderView { block_size: Some(block_size), ..self@ }),
    {
        let mut builder = self;
        builder.block_size = Some(block_size);
        builder
    }

    /// Sets the alias of the field.
    pub fn alias(self, alias: &str) -> (builder: Self)
        ensures
            builder@ == (FlatVectorFieldBuilderView {
                base: SchemaVectorFieldView {
                    base: BaseSchemaFieldView { alias: Some(alias@), ..self@.base.base },
                    ..self@.base
                },
                ..self@
            }),
    {
        let mut builder = self;
        builder.base = builder.base.alias(alias);
        builder
    }

    /// Sets whether documents without the field are indexed.
    pub fn index_missing(self, index_missing: bool) -> (builder: Self)
        ensures
            builder@ == (FlatVectorFieldBuilderView {
                base: SchemaVectorFieldView {
                    base: BaseSchemaFieldView { index_missing, ..self@.base.base },
                    ..self@.base
                },
                ..self@
            }),
    {
        let mut builder = self;
        builder.base = builder.base.index_missing(index_missing);
        builder
    }

    /// Builds the vector field.
    pub fn build(self) -> (field: VectorField)
        ensures
            field@.base == self@.base,
            field@.options is Flat,
            field@.options->Flat_0.block_size() == self@.block_size,
    {
        VectorField::Flat(self.base, FlatVectorOptions { block_size: self.block_size })
    }
}

/// A builder of a vector field indexed by the HNSW algorithm.
#[must_use]
#[derive(Debug)]
#[non_exhaustive]
pub struct HnswVectorFieldBuilder {
    base: SchemaVectorField,
    m: Option<u32>,
    ef_construction: Option<u32>,
    ef_runtime: Option<u32>,
    epsilon: Option<String>,
}

/// The mathematical content of a [`HnswVectorFieldBuilder`].
pub struct HnswVectorFieldBuilderView {
    pub base: SchemaVectorFieldView,
    pub options: HnswVectorOptionsView,
}

impl View for HnswVectorFieldBuilder {
    type V = HnswVectorFieldBuilderView;

    closed spec fn view(&self) -> HnswVectorFieldBuilderView {
        HnswVectorFieldBuilderView {
            base: self.base@,
            options: HnswVectorOptionsView {
                m: self.m,
                ef_construction: self.ef_construction,
                ef_runtime: self.ef_runtime,
                epsilon: optional_text(self.epsilon),
            },
        }
    }
}

impl Clone for HnswVectorFieldBuilder {
    fn clone(&self) -> (copy: Self)
        ensures
            copy@ == self@,
    {
        HnswVectorFieldBuilder {
            base: self.base.clone(),
            m: self.m,
            ef_construction: self.ef_construction,
            ef_runtime: self.ef_runtime,
            epsilon: clone_optional(&self.epsilon),
        }
    }
}

impl HnswVectorFieldBuilder {
    /// Sets the largest number of outgoing edges of a node in a graph layer.
    pub fn m(self, m: u32) -> (builder: Self)
        ensures
            builder@ == (HnswVectorFieldBuilderView {
                options: HnswVectorOptionsView { m: Some(m), ..self@.options },
                ..self@
            }),
    {
        let mut builder = self;
        builder.m = Some(m);
        builder
    }

    /// Sets the number of neighbours considered while the graph is built.
    pub fn ef_construction(self, ef_construction: u32) -> (builder: Self)
        ensures
            builder@ == (HnswVectorFieldBuilderView {
                options: HnswVectorOptionsView { ef_construction: Some(ef_construction), ..self@.options },
                ..self@
            }),
    {
        let mut builder = self;
        builder.ef_construction = Some(ef_construction);
        builder
    }

    /// Sets the number of candidates kept during a search.
    pub fn ef_runtime(self, ef_runtime: u32) -> (builder: Self)
        ensures
            builder@ == (HnswVectorFieldBuilderView {
                options: HnswVectorOptionsView { ef_runtime: Some(ef_runtime), ..self@.options },
                ..self@
            }),
    {
        let mut builder = self;
        builder.ef_runtime = Some(ef_runtime);
        builder
    }

    /// Sets the factor by which a range query widens its search, given as the
    /// numeral that is to stand in the command.
    pub fn epsilon(self, epsilon: &str) -> (builder: Self)
        ensures
            builder@ == (HnswVectorFieldBuilderView {
                options: HnswVectorOptionsView { epsilon: Some(epsilon@), ..self@.options },
                ..self@
            }),
    {
        let mut builder = self;
        builder.epsilon = Some(String::from_str(epsilon));
        builder
    }

    /// Sets the alias of the field.
    pub fn alias(self, alias: &str) -> (builder: Self)
        ensures
            builder@ == (HnswVectorFieldBuilderView {
                base: SchemaVectorFieldView {
                    base: BaseSchemaFieldView { alias: Some(alias@), ..self@.base.base },
                    ..self@.base
                },
                ..self@
            }),
    {
        let mut builder = self;
        builder.base = builder.base.alias(alias);
        builder
    }

    /// Sets whether documents without the field are indexed.
    pub fn index_missing(self, index_missing: bool) -> (builder: Self)
        ensures
            builder@ == (HnswVectorFieldBuilderView {
                base: SchemaVectorFieldView {
                    base: BaseSchemaFieldView { index_missing, ..self@.base.base },
                    ..self@.base
                },
                ..self@
            }),
    {
        let mut builder = self;
        builder.base = builder.base.index_missing(index_missing);
        builder
    }

    /// Builds the vector field.
    pub fn build(self) -> (field: VectorField)
        ensures
            field@ == (VectorFieldView {
                base: self@.base,
                options: VectorOptionsView::Hnsw(self@.options),
            }),
    {
        VectorField::Hnsw(
            self.base,
            HnswVectorOptions {
                m: self.m,
                ef_construction: self.ef_construction,
                ef_runtime: self.ef_runtime,
                epsilon: self.epsilon,
            },
        )
    }
}

/// The largest training threshold a VAMANA index accepts.
pub const MAX_TRAINING_THRESHOLD: u32 = 102_400;

/// Whether the compression reduces the dimension of the vectors.
pub open spec fn reduces_dimension(compression: Option<CompressionType>) -> bool {
    compression == Some(CompressionType::LeanVec4x8) || compression == Some(
        CompressionType::LeanVec8x8,
    )
}

/// The training threshold that is kept when `training_threshold` is asked
/// for: the smaller of it and the largest one accepted.
pub open spec fn clamped_training_threshold(training_threshold: u32) -> u32 {
    if training_threshold > MAX_TRAINING_THRESHOLD {
        MAX_TRAINING_THRESHOLD
    } else {
        training_threshold
    }
}

/// The reduced dimension that is kept when `reduce` is asked for on vectors
/// of dimension `dim`: at least one and, where the dimension allows it, less
/// than the dimension.
pub open spec fn clamped_reduce(reduce: u32, dim: u32) -> u32 {
    let max_reduce: u32 = if dim >= 2 {
        (dim - 1) as u32
    } else {
        1
    };
    if reduce > max_reduce {
        max_reduce
    } else if reduce < 1 {
        1
    } else {
        reduce
    }
}

/// A builder of a vector field indexed by the VAMANA algorithm.
#[must_use]
#[derive(Debug)]
#[non_exhaustive]
pub struct VamanaVectorFieldBuilder {
    base: SchemaVectorField,
    compression: Option<CompressionType>,
    construction_window_size: Option<u32>,
    graph_max_degree: Option<u32>,
    search_window_size: Option<u32>,
    epsilon: Option<String>,
    training_threshold: Option<u32>,
    reduce: Option<u32>,
}

/// The mathematical content of a [`VamanaVectorFieldBuilder`].
pub struct VamanaVectorFieldBuilderView {
    pub base: SchemaVectorFieldView,
    pub options: VamanaVectorOptionsView,
}

impl View for VamanaVectorFieldBuilder {
    type V = VamanaVectorFieldBuilderView;

    closed spec fn view(&self) -> VamanaVectorFieldBuilderView {
        VamanaVectorFieldBuilderView {
            base: self.base@,
            options: VamanaVectorOptionsView {
                compression: self.compression,
                construction_window_size: self.construction_window_size,
                graph_max_degree: self.graph_max_degree,
                search_window_size: self.search_window_size,
                epsilon: optional_text(self.epsilon),
                training_threshold: self.training_threshold,
                reduce: self.reduce,
            },
        }
    }
}

impl Clone for VamanaVectorFieldBuilder {
    fn clone(&self) -> (copy: Self)
        ensures
            copy@ == self@,
    {
        VamanaVectorFieldBuilder {
            base: self.base.clone(),
            compression: self.compression,
            construction_window_size: self.construction_window_size,
            graph_max_degree: self.graph_max_degree,
            search_window_size: self.search_window_size,
            epsilon: clone_optional(&self.epsilon),
            training_threshold: self.training_threshold,
            reduce: self.reduce,
        }
    }
}

impl VamanaVectorFieldBuilder {
    /// Sets the compression of the index.
    pub fn compression(self, compression: CompressionType) -> (builder: Self)
        ensures
            builder@ == (VamanaVectorFieldBuilderView {
                options: VamanaVectorOptionsView { compression: Some(compression), ..self@.options },
                ..self@
            }),
    {
        let mut builder = self;
        builder.compression = Some(compression);
        builder
    }

    /// Sets the size of the search window used while the graph is built.
    pub fn construction_window_size(self, construction_window_size: u32) -> (builder: Self)
        ensures
            builder@ == (VamanaVectorFieldBuilderView {
                options: VamanaVectorOptionsView { construction_window_size: Some(construction_window_size), ..self@.options },
                ..self@
            }),
    {
        let mut builder = self;
        builder.construction_window_size = Some(construction_window_size);
        builder
    }

    /// Sets the largest number of edges of a node.
    pub fn graph_max_degree(self, graph_max_degree: u32) -> (builder: Self)
        ensures
            builder@ == (VamanaVectorFieldBuilderView {
                options: VamanaVectorOptionsView { graph_max_degree: Some(graph_max_degree), ..self@.options },
                ..self@
            }),
    {
        let mut builder = self;
        builder.graph_max_degree = Some(graph_max_degree);
        builder
    }

    /// Sets the size of the search window used during a search.
    pub fn search_window_size(self, search_window_size: u32) -> (builder: Self)
        ensures
            builder@ == (VamanaVectorFieldBuilderView {
                options: VamanaVectorOptionsView { search_window_size: Some(search_window_size), ..self@.options },
                ..self@
            }),
    {
        let mut builder = self;
        builder.search_window_size = Some(search_window_size);
        builder
    }

    /// Sets the factor by which a range query widens its search, given as the
    /// numeral that is to stand in the command.
    pub fn epsilon(self, epsilon: &str) -> (builder: Self)
        ensures
            builder@ == (VamanaVectorFieldBuilderView {
                options: VamanaVectorOptionsView { epsilon: Some(epsilon@), ..self@.options },
                ..self@
            }),
    {
        let mut builder = self;
        builder.epsilon = Some(String::from_str(epsilon));
        builder
    }

    /// Sets the number of vectors from which compression parameters are
    /// learnt, capped at the largest threshold accepted. Without compression
    /// the call changes nothing.
    pub fn training_threshold(self, training_threshold: u32) -> (builder: Self)
        ensures
            self@.options.compression is Some ==> builder@ == (VamanaVectorFieldBuilderView {
                options: VamanaVectorOptionsView {
                    training_threshold: Some(clamped_training_threshold(training_threshold)),
                    ..self@.options
                },
                ..self@
            }),
            self@.options.compression is None ==> builder@ == self@,
    {
        let mut builder = self;
        if builder.compression.is_some() {
            let clamped: u32 = if training_threshold > MAX_TRAINING_THRESHOLD {
                MAX_TRAINING_THRESHOLD
            } else {
                training_threshold
            };
            builder.training_threshold = Some(clamped);
        }
        builder
    }

    /// Sets the dimension the vectors are reduced to, kept at least one and,
    /// where the dimension allows it, below the dimension. Unless the
    /// compression reduces the dimension the call changes nothing.
    pub fn reduce(self, reduce: u32) -> (builder: Self)
        ensures
            reduces_dimension(self@.options.compression) ==> builder@ == (
            VamanaVectorFieldBuilderView {
                options: VamanaVectorOptionsView {
                    reduce: Some(clamped_reduce(reduce, self@.base.dim)),
                    ..self@.options
                },
                ..self@
            }),
            !reduces_dimension(self@.options.compression) ==> builder@ == self@,
    {
        let mut builder = self;
        let applies = match builder.compression {
            Some(CompressionType::LeanVec4x8) => true,
            Some(CompressionType::LeanVec8x8) => true,
            _ => false,
        };
        if applies {
            let dim: u32 = builder.base.dim;
            let max_reduce: u32 = if dim >= 2 {
                dim - 1
            } else {
                1
            };
            let clamped: u32 = if reduce > max_reduce {
                max_reduce
            } else if reduce < 1 {
                1
            } else {
                reduce
            };
            builder.reduce = Some(clamped);
        }
        builder
    }

    /// Sets the alias of the field.
    pub fn alias(self, alias: &str) -> (builder: Self)
        ensures
            builder@ == (VamanaVectorFieldBuilderView {
                base: SchemaVectorFieldView {
                    base: BaseSchemaFieldView { alias: Some(alias@), ..self@.base.base },
                    ..self@.base
                },
                ..self@
            }),
    {
        let mut builder = self;
        builder.base = builder.base.alias(alias);
        builder
    }

    /// Sets whether documents without the field are indexed.
    pub fn index_missing(self, index_missing: bool) -> (builder: Self)
        ensures
            builder@ == (VamanaVectorFieldBuilderView {
                base: SchemaVectorFieldView {
                    base: BaseSchemaFieldView { index_missing, ..self@.base.base },
                    ..self@.base
                },
                ..self@
            }),
    {
        let mut builder = self;
        builder.base = builder.base.index_missing(index_missing);
        builder
    }

    /// Builds the vector field.
    pub fn build(self) -> (field: VectorField)
        ensures
            field@ == (VectorFieldView {
                base: self@.base,
                options: VectorOptionsView::Vamana(self@.options),
            }),
    {
        VectorField::Vamana(
            self.base,
            VamanaVectorOptions {
                compression: self.compression,
                construction_window_size: self.construction_window_size,
                graph_max_degree: self.graph_max_degree,
                search_window_size: self.search_window_size,
                epsilon: self.epsilon,
                training_threshold: self.training_threshold,
                reduce: self.reduce,
            },
        )
    }
}

/// A geo shape field of a schema.
#[must_use]
#[derive(Debug)]
#[non_exhaustive]
pub struct SchemaGeoShapeField {
    pub(crate) common: SchemaCommonField,
    coord_system: CoordSystem,
}

/// The mathematical content of a [`SchemaGeoShapeField`].
pub struct SchemaGeoShapeFieldView {
    pub common: SchemaCommonFieldView,
    pub coord_system: CoordSystem,
}

impl SchemaGeoShapeFieldView {
    /// A geo shape field with nothing set, in spherical coordinates.
    pub open spec fn plain() -> SchemaGeoShapeFieldView {
        SchemaGeoShapeFieldView {
            common: SchemaCommonFieldView::plain(FieldType::GeoShape),
            coord_system: CoordSystem::Spherical,
        }
    }

    /// The arguments of the field: the alias, the type with the coordinate
    /// system right behind it, the flag for documents without the field, and
    /// the arguments for indexing.
    pub open spec fn args(self) -> Seq<Seq<char>> {
        self.common.base.alias_args() + seq![self.common.base.field_type.keyword()] + seq![
            self.coord_system.keyword(),
        ] + self.common.base.index_missing_args() + self.common.args()
    }
}

impl View for SchemaGeoShapeField {
    type V = SchemaGeoShapeFieldView;

    closed spec fn view(&self) -> SchemaGeoShapeFieldView {
        SchemaGeoShapeFieldView { common: self.common@, coord_system: self.coord_system }
    }
}

impl Clone for SchemaGeoShapeField {
    fn clone(&self) -> (copy: Self)
        ensures
            copy@ == self@,
    {
        proof {
            use_type_invariant(self);
        }
        SchemaGeoShapeField { common: self.common.clone(), coord_system: self.coord_system }
    }
}

impl Default for SchemaGeoShapeField {
    fn default() -> (field: Self)
        ensures
            field@ == SchemaGeoShapeFieldView::plain(),
    {
        Self::new()
    }
}

impl SchemaGeoShapeField {
    #[verifier::type_invariant]
    spec fn is_geo_shape(&self) -> bool {
        self.common.base.field_type == FieldType::GeoShape && self.common.sortable is None
    }

    /// A geo shape field with nothing set, in spherical coordinates.
    pub fn new() -> (field: Self)
        ensures
            field@ == SchemaGeoShapeFieldView::plain(),
    {
        SchemaGeoShapeField {
            common: SchemaCommonField::new(FieldType::GeoShape),
            coord_system: CoordSystem::Spherical,
        }
    }

    /// Sets the coordinate system of the field.
    pub fn coord_system(self, coord_system: CoordSystem) -> (field: Self)
        ensures
            field@ == (SchemaGeoShapeFieldView { coord_system, ..self@ }),
    {
        let mut field = self;
        proof {
            use_type_invariant(&field);
        }
        field.coord_system = coord_system;
        field
    }

    /// Sets whether the field is left out of the index.
    pub fn no_index(self, no_index: bool) -> (field: Self)
        ensures
            field@ == (SchemaGeoShapeFieldView {
                common: SchemaCommonFieldView { no_index, ..self@.common },
                ..self@
            }),
    {
        proof {
            use_type_invariant(&self);
        }
        SchemaGeoShapeField {
            common: self.common.no_index(no_index),
            coord_system: self.coord_system,
        }
    }

    /// Sets the alias of the field.
    pub fn alias(self, alias: &str) -> (field: Self)
        ensures
            field@ == (SchemaGeoShapeFieldView {
                common: SchemaCommonFieldView {
                    base: BaseSchemaFieldView { alias: Some(alias@), ..self@.common.base },
                    ..self@.common
                },
                ..self@
            }),
    {
        proof {
            use_type_invariant(&self);
        }
        SchemaGeoShapeField {
            common: self.common.alias(alias),
            coord_system: self.coord_system,
        }
    }

    /// Sets whether documents without the field are indexed.
    pub fn index_missing(self, index_missing: bool) -> (field: Self)
        ensures
            field@ == (SchemaGeoShapeFieldView {
                common: SchemaCommonFieldView {
                    base: BaseSchemaFieldView { index_missing, ..self@.common.base },
                    ..self@.common
                },
                ..self@
            }),
    {
        proof {
            use_type_invariant(&self);
        }
        SchemaGeoShapeField {
            common: self.common.index_missing(index_missing),
            coord_system: self.coord_system,
        }
    }
}

impl ToRedisArgs for SchemaGeoShapeField {
    open spec fn args(&self) -> Seq<Seq<char>> {
        self@.args()
    }

    fn write_redis_args(&self, out: &mut Vec<String>) {
        let ghost start = texts(out@);
        self.common.base.write_alias(out);
        self.common.base.field_type.write_redis_args(out);
        self.coord_system.write_redis_args(out);
        self.common.base.write_index_missing(out);
        self.common.write_redis_args(out);
        proof {
            let a = self@.common.base.alias_args();
            let b = seq![self@.common.base.field_type.keyword()];
            let c = seq![self@.coord_system.keyword()];
            let d = self@.common.base.index_missing_args();
            let e = self@.common.args();
            lemma_written_then(start, a, b);
            lemma_written_then(start, a + b, c);
            lemma_written_then(start, a + b + c, d);
            lemma_written_then(start, a + b + c + d, e);
        }
    }
}

/// The definition of one field of a schema.
#[derive(Debug)]
#[non_exhaustive]
pub enum FieldDefinition {
    /// A text field.
    Text(SchemaTextField),
    /// A numeric field.
    Numeric(SchemaNumericField),
    /// A geo field.
    Geo(SchemaGeoField),
    /// A tag field.
    Tag(SchemaTagField),
    /// A vector field.
    Vector(VectorField),
    /// A geo shape field.
    GeoShape(SchemaGeoShapeField),
    /// A field of a type, with nothing set.
    JustType(FieldType),
}

/// The mathematical content of a [`FieldDefinition`].
pub enum FieldDefinitionView {
    Text(SchemaTextFieldView),
    Numeric(SchemaNumericFieldView),
    Geo(SchemaGeoFieldView),
    Tag(SchemaTagFieldView),
    Vector(VectorFieldView),
    GeoShape(SchemaGeoShapeFieldView),
    JustType(FieldType),
}

impl FieldDefinitionView {
    /// The arguments of the field.
    pub open spec fn args(self) -> Seq<Seq<char>> {
        match self {
            FieldDefinitionView::Text(field) => field.args(),
            FieldDefinitionView::Numeric(field) => field.args(),
            FieldDefinitionView::Geo(field) => field.args(),
            FieldDefinitionView::Tag(field) => field.args(),
            FieldDefinitionView::Vector(field) => field.args(),
            FieldDefinitionView::GeoShape(field) => field.args(),
            FieldDefinitionView::JustType(field_type) => seq![field_type.keyword()],
        }
    }
}

impl View for FieldDefinition {
    type V = FieldDefinitionView;

    open spec fn view(&self) -> FieldDefinitionView {
        match self {
            FieldDefinition::Text(field) => FieldDefinitionView::Text(field@),
            FieldDefinition::Numeric(field) => FieldDefinitionView::Numeric(field@),
            FieldDefinition::Geo(field) => FieldDefinitionView::Geo(field@),
            FieldDefinition::Tag(field) => FieldDefinitionView::Tag(field@),
            FieldDefinition::Vector(field) => FieldDefinitionView::Vector(field@),
            FieldDefinition::GeoShape(field) => FieldDefinitionView::GeoShape(field@),
            FieldDefinition::JustType(field_type) => FieldDefinitionView::JustType(*field_type),
        }
    }
}

impl Clone for FieldDefinition {
    fn clone(&self) -> (copy: Self)
        ensures
            copy@ == self@,
    {
        match self {
            FieldDefinition::Text(field) => FieldDefinition::Text(field.clone()),
            FieldDefinition::Numeric(field) => FieldDefinition::Numeric(field.clone()),
            FieldDefinition::Geo(field) => FieldDefinition::Geo(field.clone()),
            FieldDefinition::Tag(field) => FieldDefinition::Tag(field.clone()),
            FieldDefinition::Vector(field) => FieldDefinition::Vector(field.clone()),
            FieldDefinition::GeoShape(field) => FieldDefinition::GeoShape(field.clone()),
            FieldDefinition::JustType(field_type) => FieldDefinition::JustType(*field_type),
        }
    }
}

impl ToRedisArgs for FieldDefinition {
    open spec fn args(&self) -> Seq<Seq<char>> {
        self@.args()
    }

    fn write_redis_args(&self, out: &mut Vec<String>) {
        match self {
            FieldDefinition::Text(field) => field.write_redis_args(out),
            FieldDefinition::Numeric(field) => field.write_redis_args(out),
            FieldDefinition::Geo(field) => field.write_redis_args(out),
            FieldDefinition::Tag(field) => field.write_redis_args(out),
            FieldDefinition::Vector(field) => field.write_redis_args(out),
            FieldDefinition::GeoShape(field) => field.write_redis_args(out),
            FieldDefinition::JustType(field_type) => field_type.write_redis_args(out),
        }
    }
}

impl From<SchemaTextField> for FieldDefinition {
    fn from(field: SchemaTextField) -> (definition: Self) {
        FieldDefinition::Text(field)
    }
}

impl vstd::std_specs::convert::FromSpecImpl<SchemaTextField> for FieldDefinition {
    open spec fn obeys_from_spec() -> bool {
        true
    }

    open spec fn from_spec(field: SchemaTextField) -> Self {
        FieldDefinition::Text(field)
    }
}

impl From<SchemaNumericField> for FieldDefinition {
    fn from(field: SchemaNumericField) -> (definition: Self) {
        FieldDefinition::Numeric(field)
    }
}

impl vstd::std_specs::convert::FromSpecImpl<SchemaNumericField> for FieldDefinition {
    open spec fn obeys_from_spec() -> bool {
        true
    }

    open spec fn from_spec(field: SchemaNumericField) -> Self {
        FieldDefinition::Numeric(field)
    }
}

impl From<SchemaGeoField> for FieldDefinition {
    fn from(field: SchemaGeoField) -> (definition: Self) {
        FieldDefinition::Geo(field)
    }
}

impl vstd::std_specs::convert::FromSpecImpl<SchemaGeoField> for FieldDefinition {
    open spec fn obeys_from_spec() -> bool {
        true
    }

    open spec fn from_spec(field: SchemaGeoField) -> Self {
        FieldDefinition::Geo(field)
    }
}

impl From<SchemaTagField> for FieldDefinition {
    fn from(field: SchemaTagField) -> (definition: Self) {
        FieldDefinition::Tag(field)
    }
}

impl vstd::std_specs::convert::FromSpecImpl<SchemaTagField> for FieldDefinition {
    open spec fn obeys_from_spec() -> bool {
        true
    }

    open spec fn from_spec(field: SchemaTagField) -> Self {
        FieldDefinition::Tag(field)
    }
}

impl From<VectorField> for FieldDefinition {
    fn from(field: VectorField) -> (definition: Self) {
        FieldDefinition::Vector(field)
    }
}

impl vstd::std_specs::convert::FromSpecImpl<VectorField> for FieldDefinition {
    open spec fn obeys_from_spec() -> bool {
        true
    }

    open spec fn from_spec(field: VectorField) -> Self {
        FieldDefinition::Vector(field)
    }
}

impl From<SchemaGeoShapeField> for FieldDefinition {
    fn from(field: SchemaGeoShapeField) -> (definition: Self) {
        FieldDefinition::GeoShape(field)
    }
}

impl vstd::std_specs::convert::FromSpecImpl<SchemaGeoShapeField> for FieldDefinition {
    open spec fn obeys_from_spec() -> bool {
        true
    }

    open spec fn from_spec(field: SchemaGeoShapeField) -> Self {
        FieldDefinition::GeoShape(field)
    }
}

impl From<FieldType> for FieldDefinition {
    fn from(field_type: FieldType) -> (definition: Self) {
        FieldDefinition::JustType(field_type)
    }
}

impl vstd::std_specs::convert::FromSpecImpl<FieldType> for FieldDefinition {
    open spec fn obeys_from_spec() -> bool {
        true
    }

    open spec fn from_spec(field_type: FieldType) -> Self {
        FieldDefinition::JustType(field_type)
    }
}

/// The arguments of the fields of a schema: for each field, in order, its
/// name and the arguments of its definition.
pub open spec fn schema_args(fields: Seq<(Seq<char>, FieldDefinitionView)>) -> Seq<Seq<char>>
    decreases fields.len(),
{
    if fields.len() == 0 {
        Seq::empty()
    } else {
        schema_args(fields.drop_last()) + seq![fields.last().0] + fields.last().1.args()
    }
}

/// The names and definitions of a list of fields.
pub open spec fn field_views(fields: Seq<(String, FieldDefinition)>) -> Seq<
    (Seq<char>, FieldDefinitionView),
> {
    Seq::new(fields.len(), |i: int| (fields[i].0@, fields[i].1@))
}

/// The schema of an index: the fields to index, in the order given.
#[must_use]
#[derive(Debug)]
#[non_exhaustive]
pub struct RediSearchSchema(Vec<(String, FieldDefinition)>);

impl View for RediSearchSchema {
    type V = Seq<(Seq<char>, FieldDefinitionView)>;

    closed spec fn view(&self) -> Seq<(Seq<char>, FieldDefinitionView)> {
        field_views(self.0@)
    }
}

impl Default for RediSearchSchema {
    fn default() -> (schema: Self)
        ensures
            schema@ == Seq::<(Seq<char>, FieldDefinitionView)>::empty(),
    {
        Self::new()
    }
}

impl Clone for RediSearchSchema {
    fn clone(&self) -> (copy: Self)
        ensures
            copy@ == self@,
    {
        let mut fields: Vec<(String, FieldDefinition)> = Vec::new();
        let mut i: usize = 0;
        while i < self.0.len()
            invariant
                i <= self.0.len(),
                fields@.len() == i,
                field_views(fields@) == field_views(self.0@).take(i as int),
            decreases self.0.len() - i,
        {
            let key = self.0[i].0.clone();
            let field = self.0[i].1.clone();
            fields.push((key, field));
            assert(field_views(fields@) =~= field_views(self.0@).take(i + 1));
            i = i + 1;
        }
        RediSearchSchema(fields)
    }
}

impl RediSearchSchema {
    /// A schema without fields.
    pub fn new() -> (schema: Self)
        ensures
            schema@ == Seq::<(Seq<char>, FieldDefinitionView)>::empty(),
    {
        let schema = RediSearchSchema(Vec::new());
        schema
    }

    /// Adds the field `key` with the definition `value` behind the fields
    /// the schema has.
    pub fn insert<V: Into<FieldDefinition>>(&mut self, key: &str, value: V)
        ensures
            V::obeys_into_spec() ==> final(self)@ == old(self)@.push(
                (key@, value.into_spec()@),
            ),
            final(self)@.len() == old(self)@.len() + 1,
            final(self)@.last().0 == key@,
            final(self)@.drop_last() == old(self)@,
    {
        let definition: FieldDefinition = value.into();
        self.insert_definition(key, definition);
    }

    /// Adds the field `key` with the definition `definition` behind the
    /// fields the schema has.
    pub fn insert_definition(&mut self, key: &str, definition: FieldDefinition)
        ensures
            final(self)@ == old(self)@.push((key@, definition@)),
    {
        let owned = String::from_str(key);
        self.0.push((owned, definition));
    }

    /// Whether the schema has no fields.
    pub fn is_empty(&self) -> (empty: bool)
        ensures
            empty == (self@.len() == 0),
    {
        self.0.len() == 0
    }
}

impl ToRedisArgs for RediSearchSchema {
    open spec fn args(&self) -> Seq<Seq<char>> {
        schema_args(self@)
    }

    fn write_redis_args(&self, out: &mut Vec<String>) {
        let ghost start = texts(out@);
        let mut i: usize = 0;
        proof {
            lemma_written_then(start, Seq::empty(), Seq::empty());
        }
        while i < self.0.len()
            invariant
                i <= self.0.len(),
                texts(out@) == start + schema_args(self@.take(i as int)),
            decreases self.0.len() - i,
        {
            let ghost done = schema_args(self@.take(i as int));
            let ghost next = self@.take(i + 1);
            write_arg(out, self.0[i].0.as_str());
            self.0[i].1.write_redis_args(out);
            proof {
                assert(next.drop_last() =~= self@.take(i as int));
                let name = seq![self@[i as int].0];
                let definition = self@[i as int].1.args();
                lemma_written_then(start, done, name);
                lemma_written_then(start, done + name, definition);
            }
            i = i + 1;
        }
        assert(self@.take(self.0.len() as int) =~= self@);
    }
}

} // verus!
