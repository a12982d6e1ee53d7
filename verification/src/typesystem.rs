//! Bridge between PostgreSQL's catalog types and the source's logical types.

use vstd::prelude::*;
use crate::errors::{ConnectorXError, PostgresSourceError};
use crate::strutil::str_eq_str;

verus! {

/// The PostgreSQL catalog types this source understands, held as plain
/// values. The embedding application converts the driver's catalog type,
/// by its name, into this enum before handing metadata to the library.
#[derive(Debug, Clone, Copy, PartialEq, Eq, Structural)]
pub enum PgCatalogType {
    Bool,
    Int2,
    Int4,
    Int8,
    Float4,
    Float8,
    Numeric,
    BoolArray,
    Int2Array,
    Int4Array,
    Int8Array,
    Float4Array,
    Float8Array,
    NumericArray,
    Text,
    BpChar,
    VarChar,
    Name,
    ByteA,
    Time,
    Timestamp,
    TimestampTz,
    Date,
    Uuid,
    Json,
    Jsonb,
    HStore,
}

/// The source's logical types, one case per supported catalog type, each
/// carrying its nullability flag.
#[derive(Debug, Clone, Copy, PartialEq, Eq, Structural)]
pub enum PostgresTypeSystem {
    Bool(bool),
    Int2(bool),
    Int4(bool),
    Int8(bool),
    Float4(bool),
    Float8(bool),
    Numeric(bool),
    BoolArray(bool),
    Int2Array(bool),
    Int4Array(bool),
    Int8Array(bool),
    Float4Array(bool),
    Float8Array(bool),
    NumericArray(bool),
    Text(bool),
    BpChar(bool),
    VarChar(bool),
    Name(bool),
    ByteA(bool),
    Time(bool),
    Timestamp(bool),
    TimestampTz(bool),
    Date(bool),
    UUID(bool),
    JSON(bool),
    JSONB(bool),
    HSTORE(bool),
}

/// The logical type derived from a catalog type. Nullability is not part of
/// the prepared-statement metadata, so it defaults to `true`.
pub open spec fn spec_type_of(t: PgCatalogType) -> PostgresTypeSystem {
    match t {
        PgCatalogType::Bool => PostgresTypeSystem::Bool(true),
        PgCatalogType::Int2 => PostgresTypeSystem::Int2(true),
        PgCatalogType::Int4 => PostgresTypeSystem::Int4(true),
        PgCatalogType::Int8 => PostgresTypeSystem::Int8(true),
        PgCatalogType::Float4 => PostgresTypeSystem::Float4(true),
        PgCatalogType::Float8 => PostgresTypeSystem::Float8(true),
        PgCatalogType::Numeric => PostgresTypeSystem::Numeric(true),
        PgCatalogType::BoolArray => PostgresTypeSystem::BoolArray(true),
        PgCatalogType::Int2Array => PostgresTypeSystem::Int2Array(true),
        PgCatalogType::Int4Array => PostgresTypeSystem::Int4Array(true),
        PgCatalogType::Int8Array => PostgresTypeSystem::Int8Array(true),
        PgCatalogType::Float4Array => PostgresTypeSystem::Float4Array(true),
        PgCatalogType::Float8Array => PostgresTypeSystem::Float8Array(true),
        PgCatalogType::NumericArray => PostgresTypeSystem::NumericArray(true),
        PgCatalogType::Text => PostgresTypeSystem::Text(true),
        PgCatalogType::BpChar => PostgresTypeSystem::BpChar(true),
        PgCatalogType::VarChar => PostgresTypeSystem::VarChar(true),
        PgCatalogType::Name => PostgresTypeSystem::Name(true),
        PgCatalogType::ByteA => PostgresTypeSystem::ByteA(true),
        PgCatalogType::Time => PostgresTypeSystem::Time(true),
        PgCatalogType::Timestamp => PostgresTypeSystem::Timestamp(true),
        PgCatalogType::TimestampTz => PostgresTypeSystem::TimestampTz(true),
        PgCatalogType::Date => PostgresTypeSystem::Date(true),
        PgCatalogType::Uuid => PostgresTypeSystem::UUID(true),
        PgCatalogType::Json => PostgresTypeSystem::JSON(true),
        PgCatalogType::Jsonb => PostgresTypeSystem::JSONB(true),
        PgCatalogType::HStore => PostgresTypeSystem::HSTORE(true),
    }
}

impl PostgresTypeSystem {
    /// Derive the logical type of a catalog type.
    pub fn from_catalog(t: PgCatalogType) -> (r: PostgresTypeSystem)
        ensures
            r == spec_type_of(t),
    {
        match t {
            PgCatalogType::Bool => PostgresTypeSystem::Bool(true),
            PgCatalogType::Int2 => PostgresTypeSystem::Int2(true),
            PgCatalogType::Int4 => PostgresTypeSystem::Int4(true),
            PgCatalogType::Int8 => PostgresTypeSystem::Int8(true),
            PgCatalogType::Float4 => PostgresTypeSystem::Float4(true),
            PgCatalogType::Float8 => PostgresTypeSystem::Float8(true),
            PgCatalogType::Numeric => PostgresTypeSystem::Numeric(true),
            PgCatalogType::BoolArray => PostgresTypeSystem::BoolArray(true),
            PgCatalogType::Int2Array => PostgresTypeSystem::Int2Array(true),
            PgCatalogType::Int4Array => PostgresTypeSystem::Int4Array(true),
            PgCatalogType::Int8Array => PostgresTypeSystem::Int8Array(true),
            PgCatalogType::Float4Array => PostgresTypeSystem::Float4Array(true),
            PgCatalogType::Float8Array => PostgresTypeSystem::Float8Array(true),
            PgCatalogType::NumericArray => PostgresTypeSystem::NumericArray(true),
            PgCatalogType::Text => PostgresTypeSystem::Text(true),
            PgCatalogType::BpChar => PostgresTypeSystem::BpChar(true),
            PgCatalogType::VarChar => PostgresTypeSystem::VarChar(true),
            PgCatalogType::Name => PostgresTypeSystem::Name(true),
            PgCatalogType::ByteA => PostgresTypeSystem::ByteA(true),
            PgCatalogType::Time => PostgresTypeSystem::Time(true),
            PgCatalogType::Timestamp => PostgresTypeSystem::Timestamp(true),
            PgCatalogType::TimestampTz => PostgresTypeSystem::TimestampTz(true),
            PgCatalogType::Date => PostgresTypeSystem::Date(true),
            PgCatalogType::Uuid => PostgresTypeSystem::UUID(true),
            PgCatalogType::Json => PostgresTypeSystem::JSON(true),
            PgCatalogType::Jsonb => PostgresTypeSystem::JSONB(true),
            PgCatalogType::HStore => PostgresTypeSystem::HSTORE(true),
        }
    }
}

/// The catalog type whose name is `s`, if the source supports it.
pub open spec fn spec_catalog_of_name(s: Seq<char>) -> Option<PgCatalogType> {
    if s == "bool"@ {
        Some(PgCatalogType::Bool)
    } else if s == "int2"@ {
        Some(PgCatalogType::Int2)
    } else if s == "int4"@ {
        Some(PgCatalogType::Int4)
    } else if s == "int8"@ {
        Some(PgCatalogType::Int8)
    } else if s == "float4"@ {
        Some(PgCatalogType::Float4)
    } else if s == "float8"@ {
        Some(PgCatalogType::Float8)
    } else if s == "numeric"@ {
        Some(PgCatalogType::Numeric)
    } else if s == "_bool"@ {
        Some(PgCatalogType::BoolArray)
    } else if s == "_int2"@ {
        Some(PgCatalogType::Int2Array)
    } else if s == "_int4"@ {
        Some(PgCatalogType::Int4Array)
    } else if s == "_int8"@ {
        Some(PgCatalogType::Int8Array)
    } else if s == "_float4"@ {
        Some(PgCatalogType::Float4Array)
    } else if s == "_float8"@ {
        Some(PgCatalogType::Float8Array)
    } else if s == "_numeric"@ {
        Some(PgCatalogType::NumericArray)
    } else if s == "text"@ {
        Some(PgCatalogType::Text)
    } else if s == "bpchar"@ {
        Some(PgCatalogType::BpChar)
    } else if s == "varchar"@ {
        Some(PgCatalogType::VarChar)
    } else if s == "name"@ {
        Some(PgCatalogType::Name)
    } else if s == "bytea"@ {
        Some(PgCatalogType::ByteA)
    } else if s == "time"@ {
        Some(PgCatalogType::Time)
    } else if s == "timestamp"@ {
        Some(PgCatalogType::Timestamp)
    } else if s == "timestamptz"@ {
        Some(PgCatalogType::TimestampTz)
    } else if s == "date"@ {
        Some(PgCatalogType::Date)
    } else if s == "uuid"@ {
        Some(PgCatalogType::Uuid)
    } else if s == "json"@ {
        Some(PgCatalogType::Json)
    } else if s == "jsonb"@ {
        Some(PgCatalogType::Jsonb)
    } else if s == "hstore"@ {
        Some(PgCatalogType::HStore)
    } else {
        None
    }
}

impl PgCatalogType {
    /// Look a catalog type up by its name, as the driver reports it.
    /// An unknown name fails with a type-conversion error carrying it.
    pub fn from_name(name: &str) -> (r: Result<PgCatalogType, PostgresSourceError>)
        ensures
            match spec_catalog_of_name(name@) {
                Some(t) => r == Ok::<PgCatalogType, PostgresSourceError>(t),
                None => (match r {
                    Err(PostgresSourceError::ConnectorX(ConnectorXError::TypeConversion(m))) => m@
                        == name@,
                    _ => false,
                }),
            },
    {
        if str_eq_str(name, "bool") {
            Ok(PgCatalogType::Bool)
        } else if str_eq_str(name, "int2") {
            Ok(PgCatalogType::Int2)
        } else if str_eq_str(name, "int4") {
            Ok(PgCatalogType::Int4)
        } else if str_eq_str(name, "int8") {
            Ok(PgCatalogType::Int8)
        } else if str_eq_str(name, "float4") {
            Ok(PgCatalogType::Float4)
        } else if str_eq_str(name, "float8") {
            Ok(PgCatalogType::Float8)
        } else if str_eq_str(name, "numeric") {
            Ok(PgCatalogType::Numeric)
        } else if str_eq_str(name, "_bool") {
            Ok(PgCatalogType::BoolArray)
        } else if str_eq_str(name, "_int2") {
            Ok(PgCatalogType::Int2Array)
        } else if str_eq_str(name, "_int4") {
            Ok(PgCatalogType::Int4Array)
        } else if str_eq_str(name, "_int8") {
            Ok(PgCatalogType::Int8Array)
        } else if str_eq_str(name, "_float4") {
            Ok(PgCatalogType::Float4Array)
        } else if str_eq_str(name, "_float8") {
            Ok(PgCatalogType::Float8Array)
        } else if str_eq_str(name, "_numeric") {
            Ok(PgCatalogType::NumericArray)
        } else if str_eq_str(name, "text") {
            Ok(PgCatalogType::Text)
        } else if str_eq_str(name, "bpchar") {
            Ok(PgCatalogType::BpChar)
        } else if str_eq_str(name, "varchar") {
            Ok(PgCatalogType::VarChar)
        } else if str_eq_str(name, "name") {
            Ok(PgCatalogType::Name)
        } else if str_eq_str(name, "bytea") {
            Ok(PgCatalogType::ByteA)
        } else if str_eq_str(name, "time") {
            Ok(PgCatalogType::Time)
        } else if str_eq_str(name, "timestamp") {
            Ok(PgCatalogType::Timestamp)
        } else if str_eq_str(name, "timestamptz") {
            Ok(PgCatalogType::TimestampTz)
        } else if str_eq_str(name, "date") {
            Ok(PgCatalogType::Date)
        } else if str_eq_str(name, "uuid") {
            Ok(PgCatalogType::Uuid)
        } else if str_eq_str(name, "json") {
            Ok(PgCatalogType::Json)
        } else if str_eq_str(name, "jsonb") {
            Ok(PgCatalogType::Jsonb)
        } else if str_eq_str(name, "hstore") {
            Ok(PgCatalogType::HStore)
        } else {
            Err(PostgresSourceError::ConnectorX(ConnectorXError::TypeConversion(name.to_owned())))
        }
    }
}

/// A catalog type paired with its logical type, used to derive the canonical
/// catalog type under which a column is read when issuing a binary COPY.
pub struct PostgresTypePairs(pub PgCatalogType, pub PostgresTypeSystem);

/// The canonical catalog type for a binary COPY read: the character types
/// `bpchar` and `varchar` decode exactly as `text` does, so they collapse
/// to `text`; every other catalog type stands for itself.
pub open spec fn spec_canonical_pair(cat: PgCatalogType, logical: PostgresTypeSystem) -> PgCatalogType {
    match logical {
        PostgresTypeSystem::BpChar(_) => PgCatalogType::Text,
        PostgresTypeSystem::VarChar(_) => PgCatalogType::Text,
        PostgresTypeSystem::Text(_) => PgCatalogType::Text,
        _ => cat,
    }
}

impl PostgresTypePairs {
    /// The canonical catalog type of this pair.
    pub fn canonical(&self) -> (r: PgCatalogType)
        ensures
            r == spec_canonical_pair(self.0, self.1),
    {
        match self.1 {
            PostgresTypeSystem::BpChar(_) => PgCatalogType::Text,
            PostgresTypeSystem::VarChar(_) => PgCatalogType::Text,
            PostgresTypeSystem::Text(_) => PgCatalogType::Text,
            _ => self.0,
        }
    }
}

} // verus!
