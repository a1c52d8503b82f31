//! Search and indexing: building the `FT.CREATE` command.

pub mod args;
pub mod create;
pub mod create_types;

pub use args::ToRedisArgs;
pub use create::Cmd;
pub use create::FtCreateCommand;
pub use create_types::BaseSchemaField;
pub use create_types::CompressionType;
pub use create_types::CoordSystem;
pub use create_types::CreateOptions;
pub use create_types::DistanceMetric;
pub use create_types::FieldDefinition;
pub use create_types::FieldType;
pub use create_types::FlatVectorFieldBuilder;
pub use create_types::FlatVectorOptions;
pub use create_types::HnswVectorFieldBuilder;
pub use create_types::HnswVectorOptions;
pub use create_types::IndexDataType;
pub use create_types::Phonetic;
pub use create_types::RediSearchSchema;
pub use create_types::SchemaCommonField;
pub use create_types::SchemaGeoField;
pub use create_types::SchemaGeoShapeField;
pub use create_types::SchemaNumericField;
pub use create_types::SchemaTagField;
pub use create_types::SchemaTextField;
pub use create_types::SchemaVectorField;
pub use create_types::SearchLanguage;
pub use create_types::Sortable;
pub use create_types::VamanaVectorFieldBuilder;
pub use create_types::VamanaVectorOptions;
pub use create_types::VamanaVectorType;
pub use create_types::VectorAlgorithm;
pub use create_types::VectorField;
pub use create_types::VectorType;
pub use create_types::MAX_TRAINING_THRESHOLD;
