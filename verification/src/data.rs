//! The data-handling surface: a common CRUD interface for the JSON, YAML
//! and XML adapters, and the SQL connector placeholder. The serialization
//! adapters themselves are collaborator code implemented by the host
//! application; this module fixes their interface and the SQL placeholder's
//! behaviour.

use vstd::prelude::*;

verus! {

use vstd::string::StringExecFns;

/// Generic CRUD interface for the data formats.
pub trait CRUD<T>: Sized {
    /// Serializes a value.
    fn create(&self, data: &T) -> Result<String, String>;

    /// Deserializes a value from source text.
    fn read(&self, source: &str) -> Result<T, String>;

    /// Re-serializes a value over an existing source.
    fn update(&self, source: &str, data: &T) -> Result<String, String>;

    /// Produces the format's empty document.
    fn delete(&self, source: &str) -> Result<String, String>;
}

/// The JSON adapter.
pub struct JSONHandler;

/// The YAML adapter.
pub struct YAMLHandler;

/// The XML adapter.
pub struct XMLHandler;

/// The SQL connector placeholder: it echoes the query it was given.
pub struct SQLHandler;

impl SQLHandler {
    /// Echoes the query, marked as executed; a stand-in for a real
    /// database connection.
    pub fn query(&self, sql: &str) -> (r: Result<String, String>)
        ensures
            r matches Ok(s) && s@ == "Executed SQL: "@ + sql@,
    {
        let mut out = "Executed SQL: ".to_owned();
        out.append(sql);
        Ok(out)
    }
}

} // verus!
