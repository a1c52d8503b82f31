use redis_toolkit::search::args::write_all;
use redis_toolkit::search::args::write_arg;
use redis_toolkit::search::args::write_counted;
use redis_toolkit::search::args::write_flag;
use redis_toolkit::search::args::write_number;
use redis_toolkit::search::args::write_optional;
use redis_toolkit::search::args::write_optional_number;
use redis_toolkit::search::create_types::quote;
use redis_toolkit::search::BaseSchemaField;
use redis_toolkit::search::CompressionType;
use redis_toolkit::search::CoordSystem;
use redis_toolkit::search::CreateOptions;
use redis_toolkit::search::DistanceMetric;
use redis_toolkit::search::FieldDefinition;
use redis_toolkit::search::FieldType;
use redis_toolkit::search::FtCreateCommand;
use redis_toolkit::search::IndexDataType;
use redis_toolkit::search::Phonetic;
use redis_toolkit::search::RediSearchSchema;
use redis_toolkit::search::SchemaCommonField;
use redis_toolkit::search::SchemaGeoField;
use redis_toolkit::search::SchemaNumericField;
use redis_toolkit::search::SchemaTagField;
use redis_toolkit::search::SchemaTextField;
use redis_toolkit::search::SearchLanguage;
use redis_toolkit::search::Sortable;
use redis_toolkit::search::ToRedisArgs;
use redis_toolkit::search::VamanaVectorType;
use redis_toolkit::search::VectorAlgorithm;
use redis_toolkit::search::VectorField;
use redis_toolkit::search::VectorType;
use redis_toolkit::search::MAX_TRAINING_THRESHOLD;
use redis_toolkit::text::clone_strings;
use redis_toolkit::text::decimal_string;
use redis_toolkit::text::join;
use redis_toolkit::text::push_decimal;

fn args_of<T: ToRedisArgs>(value: &T) -> Vec<String> {
    let mut out = vec!["HEAD".to_string()];
    value.write_redis_args(&mut out);
    assert_eq!(out[0], "HEAD");
    out.split_off(1)
}

fn strings(items: &[&str]) -> Vec<String> {
    items.iter().map(|s| s.to_string()).collect()
}

#[test]
fn numbers_are_written_in_decimal() {
    assert_eq!(decimal_string(0), "0");
    assert_eq!(decimal_string(7), "7");
    assert_eq!(decimal_string(10), "10");
    assert_eq!(decimal_string(1_024), "1024");
    assert_eq!(decimal_string(907_050), "907050");
    assert_eq!(decimal_string(u64::MAX), "18446744073709551615");
    for n in [1u64, 9, 11, 99, 100, 101, 65_535, 4_294_967_296] {
        assert_eq!(decimal_string(n), n.to_string());
    }
    let mut text = "n=".to_string();
    push_decimal(&mut text, 42);
    assert_eq!(text, "n=42");
}

#[test]
fn texts_are_joined_with_a_separator_between_them() {
    assert_eq!(join(&strings(&[]), " "), "");
    assert_eq!(join(&strings(&["a"]), " "), "a");
    assert_eq!(join(&strings(&["a", "b", "c"]), " "), "a b c");
    assert_eq!(join(&strings(&["a", "", "c"]), ", "), "a, , c");
    assert_eq!(clone_strings(&strings(&["x", "y"])), strings(&["x", "y"]));
}

#[test]
fn the_writers_append_to_what_is_there() {
    let mut out = strings(&["FT.CREATE"]);
    write_arg(&mut out, "idx");
    write_number(&mut out, 12);
    write_all(&mut out, &strings(&["a", "b"]));
    write_flag(&mut out, true, "NOHL");
    write_flag(&mut out, false, "NOFREQS");
    write_optional(&mut out, "AS", &Some("alias".to_string()));
    write_optional(&mut out, "FILTER", &None);
    write_optional_number(&mut out, "TEMPORARY", Some(0));
    write_optional_number(&mut out, "DIM", None);
    write_counted(&mut out, "PREFIX", &strings(&["p", "q", "r"]));
    write_counted(&mut out, "STOPWORDS", &strings(&[]));
    assert_eq!(
        out,
        strings(&[
            "FT.CREATE", "idx", "12", "a", "b", "NOHL", "AS", "alias", "TEMPORARY", "0", "PREFIX",
            "3", "p", "q", "r"
        ])
    );
}

#[test]
fn a_filter_is_put_between_single_quotes() {
    assert_eq!(quote("@a > 1"), "'@a > 1'");
    assert_eq!(quote(""), "''");
}

#[test]
fn every_language_is_written_in_upper_case() {
    let languages = [
        (SearchLanguage::Arabic, "ARABIC"),
        (SearchLanguage::Basque, "BASQUE"),
        (SearchLanguage::Catalan, "CATALAN"),
        (SearchLanguage::Danish, "DANISH"),
        (SearchLanguage::Dutch, "DUTCH"),
        (SearchLanguage::English, "ENGLISH"),
        (SearchLanguage::Finnish, "FINNISH"),
        (SearchLanguage::French, "FRENCH"),
        (SearchLanguage::German, "GERMAN"),
        (SearchLanguage::Greek, "GREEK"),
        (SearchLanguage::Hungarian, "HUNGARIAN"),
        (SearchLanguage::Indonesian, "INDONESIAN"),
        (SearchLanguage::Irish, "IRISH"),
        (SearchLanguage::Italian, "ITALIAN"),
        (SearchLanguage::Lithuanian, "LITHUANIAN"),
        (SearchLanguage::Nepali, "NEPALI"),
        (SearchLanguage::Norwegian, "NORWEGIAN"),
        (SearchLanguage::Portuguese, "PORTUGUESE"),
        (SearchLanguage::Romanian, "ROMANIAN"),
        (SearchLanguage::Russian, "RUSSIAN"),
        (SearchLanguage::Spanish, "SPANISH"),
        (SearchLanguage::Swedish, "SWEDISH"),
        (SearchLanguage::Tamil, "TAMIL"),
        (SearchLanguage::Turkish, "TURKISH"),
        (SearchLanguage::Chinese, "CHINESE"),
    ];
    for (language, name) in languages {
        assert_eq!(language.as_str(), name);
        assert_eq!(args_of(&language), strings(&[name]));
    }
}

#[test]
fn every_keyword_is_written_as_the_command_wants_it() {
    assert_eq!(args_of(&IndexDataType::Hash), strings(&["HASH"]));
    assert_eq!(args_of(&IndexDataType::Json), strings(&["JSON"]));
    let field_types = [
        (FieldType::Text, "TEXT", true),
        (FieldType::Tag, "TAG", true),
        (FieldType::Numeric, "NUMERIC", true),
        (FieldType::Geo, "GEO", true),
        (FieldType::Vector, "VECTOR", false),
        (FieldType::GeoShape, "GEOSHAPE", false),
    ];
    for (field_type, keyword, sortable) in field_types {
        assert_eq!(args_of(&field_type), strings(&[keyword]));
        assert_eq!(field_type.is_sortable(), sortable);
    }
    assert_eq!(args_of(&Sortable::Yes), strings(&["SORTABLE"]));
    assert_eq!(args_of(&Sortable::Unf), strings(&["SORTABLE", "UNF"]));
    assert_eq!(args_of(&Phonetic::DmEn), strings(&["dm:en"]));
    assert_eq!(args_of(&Phonetic::DmFr), strings(&["dm:fr"]));
    assert_eq!(args_of(&Phonetic::DmPt), strings(&["dm:pt"]));
    assert_eq!(args_of(&Phonetic::DmEs), strings(&["dm:es"]));
    assert_eq!(args_of(&VectorAlgorithm::Flat), strings(&["FLAT"]));
    assert_eq!(args_of(&VectorAlgorithm::Hnsw), strings(&["HNSW"]));
    assert_eq!(args_of(&VectorAlgorithm::Vamana), strings(&["SVS-VAMANA"]));
    assert_eq!(args_of(&VectorType::Float32), strings(&["FLOAT32"]));
    assert_eq!(args_of(&VectorType::Float64), strings(&["FLOAT64"]));
    assert_eq!(args_of(&VectorType::BFloat16), strings(&["BFLOAT16"]));
    assert_eq!(args_of(&VectorType::Float16), strings(&["FLOAT16"]));
    assert_eq!(args_of(&VectorType::Int8), strings(&["INT8"]));
    assert_eq!(args_of(&VectorType::UInt8), strings(&["UINT8"]));
    assert_eq!(args_of(&DistanceMetric::L2), strings(&["L2"]));
    assert_eq!(args_of(&DistanceMetric::IP), strings(&["IP"]));
    assert_eq!(args_of(&DistanceMetric::Cosine), strings(&["COSINE"]));
    assert_eq!(args_of(&CompressionType::LVQ8), strings(&["LVQ8"]));
    assert_eq!(args_of(&CompressionType::LVQ4), strings(&["LVQ4"]));
    assert_eq!(args_of(&CompressionType::LVQ4x4), strings(&["LVQ4x4"]));
    assert_eq!(args_of(&CompressionType::LVQ4x8), strings(&["LVQ4x8"]));
    assert_eq!(args_of(&CompressionType::LeanVec4x8), strings(&["LeanVec4x8"]));
    assert_eq!(args_of(&CompressionType::LeanVec8x8), strings(&["LeanVec8x8"]));
    assert_eq!(args_of(&CoordSystem::Spherical), strings(&["SPHERICAL"]));
    assert_eq!(args_of(&CoordSystem::Flat), strings(&["FLAT"]));
    assert_eq!(VectorType::from(VamanaVectorType::Float16), VectorType::Float16);
    assert_eq!(VectorType::from(VamanaVectorType::Float32), VectorType::Float32);
    assert_eq!(MAX_TRAINING_THRESHOLD, 102_400);
}

#[test]
fn all_options_are_written_in_the_order_of_the_command() {
    let options = CreateOptions::new()
        .skip_initial_scan()
        .stopword("a")
        .no_freqs()
        .no_fields()
        .no_highlight()
        .temporary(u64::MAX)
        .no_offsets()
        .max_text_fields()
        .score_field("rank")
        .score("0.5")
        .language_field("lang")
        .language(SearchLanguage::German)
        .filter("@x > 0")
        .prefix("doc:")
        .on(IndexDataType::Json);
    let expected = strings(&[
        "ON", "JSON", "PREFIX", "1", "doc:", "FILTER", "'@x > 0'", "LANGUAGE", "GERMAN",
        "LANGUAGE_FIELD", "lang", "SCORE", "0.5", "SCORE_FIELD", "rank", "MAXTEXTFIELDS",
        "NOOFFSETS", "TEMPORARY", "18446744073709551615", "NOHL", "NOFIELDS", "NOFREQS",
        "STOPWORDS", "1", "a", "SKIPINITIALSCAN",
    ]);
    assert_eq!(args_of(&options), expected);
    assert_eq!(args_of(&options.clone()), expected);
    assert_eq!(args_of(&CreateOptions::new()), Vec::<String>::new());
    assert_eq!(args_of(&CreateOptions::default()), Vec::<String>::new());
}

#[test]
fn more_than_nine_prefixes_are_counted_in_decimal() {
    let mut options = CreateOptions::new();
    let mut expected = strings(&["PREFIX", "12"]);
    for i in 0..12 {
        let prefix = format!("p{i}:");
        options = options.prefix(&prefix);
        expected.push(prefix);
    }
    assert_eq!(args_of(&options), expected);
}

#[test]
fn the_base_and_the_common_part_write_their_own_arguments() {
    let base = BaseSchemaField::new(FieldType::Geo);
    assert_eq!(args_of(&base), strings(&["GEO"]));
    let base = base.alias("where").index_missing(true);
    assert_eq!(args_of(&base), strings(&["AS", "where", "GEO", "INDEXMISSING"]));
    assert_eq!(args_of(&base.clone().index_missing(false)), strings(&["AS", "where", "GEO"]));

    let common = SchemaCommonField::new(FieldType::Numeric);
    assert_eq!(args_of(&common), Vec::<String>::new());
    let common = common
        .sortable(Sortable::Unf)
        .no_index(true)
        .alias("n")
        .index_missing(true);
    assert_eq!(args_of(&common), strings(&["SORTABLE", "UNF", "NOINDEX"]));
    assert_eq!(args_of(&common.base), strings(&["AS", "n", "NUMERIC", "INDEXMISSING"]));
    assert_eq!(args_of(&common.clone().no_index(false)), strings(&["SORTABLE", "UNF"]));
}

#[test]
fn fields_made_by_default_have_nothing_set() {
    assert_eq!(args_of(&SchemaTextField::default()), strings(&["TEXT"]));
    assert_eq!(args_of(&SchemaTagField::default()), strings(&["TAG"]));
    assert_eq!(args_of(&SchemaNumericField::default()), strings(&["NUMERIC"]));
    assert_eq!(args_of(&SchemaGeoField::default()), strings(&["GEO"]));
    assert!(RediSearchSchema::default().is_empty());
}

#[test]
fn a_tag_separator_may_be_any_character() {
    for separator in [',', ';', ' ', 'é', '\u{1F600}'] {
        assert_eq!(
            args_of(&SchemaTagField::new().separator(separator)),
            vec!["TAG".to_string(), "SEPARATOR".to_string(), separator.to_string()]
        );
    }
}

#[test]
fn the_attribute_count_is_the_number_of_attribute_arguments() {
    let fields = [
        VectorField::flat(VectorType::Int8, 3, DistanceMetric::IP).build(),
        VectorField::flat(VectorType::Int8, 3, DistanceMetric::IP)
            .block_size(1)
            .build(),
        VectorField::hnsw(VectorType::Float64, 3, DistanceMetric::L2)
            .epsilon("0.01")
            .build(),
        VectorField::hnsw(VectorType::Float64, 3, DistanceMetric::L2)
            .m(1)
            .ef_construction(2)
            .ef_runtime(3)
            .epsilon("0.5")
            .index_missing(true)
            .alias("v")
            .build(),
        VectorField::vamana(VamanaVectorType::Float16, 3, DistanceMetric::Cosine)
            .compression(CompressionType::LeanVec8x8)
            .reduce(2)
            .training_threshold(5)
            .build(),
    ];
    for field in fields {
        let args = args_of(&field);
        let type_at = args.iter().position(|a| a == "TYPE").unwrap();
        let count: usize = args[type_at - 1].parse().unwrap();
        let missing = usize::from(args.last().unwrap() == "INDEXMISSING");
        assert_eq!(count, args.len() - type_at - missing);
        assert_eq!(args_of(&field.clone()), args);
    }
}

#[test]
fn a_vector_field_can_be_renamed_after_it_is_built() {
    let field = VectorField::hnsw(VectorType::Float32, 4, DistanceMetric::L2)
        .m(8)
        .build()
        .alias("vec")
        .index_missing(true);
    assert_eq!(
        args_of(&field),
        strings(&[
            "AS", "vec", "VECTOR", "HNSW", "8", "TYPE", "FLOAT32", "DIM", "4", "DISTANCE_METRIC",
            "L2", "M", "8", "INDEXMISSING"
        ])
    );
    let field = field.index_missing(false);
    assert_eq!(args_of(&field).last().unwrap(), "8");
}

#[test]
fn reduce_is_kept_between_one_and_the_dimension() {
    let builder = VectorField::vamana(VamanaVectorType::Float32, 1, DistanceMetric::L2)
        .compression(CompressionType::LeanVec4x8);
    for (asked, kept) in [(0, "1"), (1, "1"), (5, "1")] {
        let args = args_of(&builder.clone().reduce(asked).build());
        assert_eq!(args.last().unwrap(), kept);
    }
    let builder = VectorField::vamana(VamanaVectorType::Float32, 10, DistanceMetric::L2)
        .compression(CompressionType::LeanVec8x8);
    for (asked, kept) in [(0, "1"), (1, "1"), (9, "9"), (10, "9"), (u32::MAX, "9")] {
        let args = args_of(&builder.clone().reduce(asked).build());
        assert_eq!(args.last().unwrap(), kept);
    }
    let plain = VectorField::vamana(VamanaVectorType::Float32, 10, DistanceMetric::L2)
        .compression(CompressionType::LVQ4x8)
        .reduce(5)
        .build();
    assert!(!args_of(&plain).contains(&"REDUCE".to_string()));
}

#[test]
fn the_training_threshold_is_capped() {
    let builder = VectorField::vamana(VamanaVectorType::Float32, 10, DistanceMetric::L2)
        .compression(CompressionType::LVQ8);
    for (asked, kept) in [
        (0, "0"),
        (102_399, "102399"),
        (102_400, "102400"),
        (102_401, "102400"),
        (u32::MAX, "102400"),
    ] {
        let args = args_of(&builder.clone().training_threshold(asked).build());
        assert_eq!(args.last().unwrap(), kept);
    }
}

#[test]
fn a_schema_writes_its_fields_in_the_order_of_insertion() {
    let mut schema = RediSearchSchema::new();
    assert!(schema.is_empty());
    assert_eq!(args_of(&schema), Vec::<String>::new());
    schema.insert("b", FieldType::Numeric);
    schema.insert("a", SchemaGeoField::new().sortable(Sortable::Yes));
    schema.insert_definition("b", FieldDefinition::JustType(FieldType::Tag));
    schema.insert(
        "v",
        VectorField::flat(VectorType::UInt8, 2, DistanceMetric::L2).build(),
    );
    assert!(!schema.is_empty());
    let expected = strings(&[
        "b", "NUMERIC", "a", "GEO", "SORTABLE", "b", "TAG", "v", "VECTOR", "FLAT", "6", "TYPE",
        "UINT8", "DIM", "2", "DISTANCE_METRIC", "L2",
    ]);
    assert_eq!(args_of(&schema), expected);
    assert_eq!(args_of(&schema.clone()), expected);
}

#[test]
fn a_command_is_its_name_the_index_the_options_and_the_schema() {
    let mut schema = RediSearchSchema::new();
    schema.insert("title", SchemaTextField::new().weight("2.0"));
    let command = FtCreateCommand::new("idx")
        .options(CreateOptions::new().on(IndexDataType::Hash))
        .schema(schema);
    assert!(command.is_complete());
    let cmd = command.into_cmd();
    let expected = strings(&[
        "FT.CREATE", "idx", "ON", "HASH", "SCHEMA", "title", "TEXT", "WEIGHT", "2.0",
    ]);
    assert_eq!(cmd.args(), &expected);
    assert_eq!(cmd.into_vec(), expected);
}

#[test]
fn a_command_without_an_index_name_or_without_fields_is_not_complete() {
    assert!(!FtCreateCommand::new("idx").is_complete());
    let mut schema = RediSearchSchema::new();
    schema.insert("title", SchemaTextField::new());
    assert!(!FtCreateCommand::new("").schema(schema.clone()).is_complete());
    assert!(FtCreateCommand::new("i").schema(schema.clone()).is_complete());
    assert!(!FtCreateCommand::new("i")
        .schema(schema)
        .schema(RediSearchSchema::new())
        .is_complete());
}
