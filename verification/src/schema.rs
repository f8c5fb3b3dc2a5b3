//! Schema versions and the identifiers under which they are declared.

use vstd::prelude::*;
use vstd::string::StrSliceExecFns;
use crate::error::SceneError;
use crate::scene::SchemaVersion;

verus! {

impl SchemaVersion {
    /// The identifier under which a scene declares this version.
    pub open spec fn spec_identifier(self) -> Seq<char> {
        match self {
            SchemaVersion::V0 => seq!['v', '0'],
        }
    }

    /// The identifier under which a scene declares this version.
    pub fn identifier(self) -> (text: &'static str)
        ensures
            text@ == self.spec_identifier(),
    {
        proof {
            reveal_strlit("v0");
        }
        match self {
            SchemaVersion::V0 => {
                assert("v0"@ =~= seq!['v', '0']);
                "v0"
            },
        }
    }

    /// The version that a declaration `text` names: the one whose identifier
    /// it is. A declaration that names no known version is rejected, never
    /// read as some other version.
    pub open spec fn spec_parse(text: Seq<char>) -> Result<SchemaVersion, SceneError> {
        if text == SchemaVersion::V0.spec_identifier() {
            Ok(SchemaVersion::V0)
        } else {
            Err(SceneError::UnsupportedSchemaVersion)
        }
    }

    /// The version that a declaration `text` names.
    pub fn parse(text: &str) -> (result: Result<SchemaVersion, SceneError>)
        ensures
            result == SchemaVersion::spec_parse(text@),
    {
        if text.unicode_len() == 2 && text.get_char(0) == 'v' && text.get_char(1) == '0' {
            assert(text@ =~= seq!['v', '0']);
            Ok(SchemaVersion::V0)
        } else {
            Err(SceneError::UnsupportedSchemaVersion)
        }
    }
}

/// The identifier of the schema version that this model writes.
pub fn schema_version() -> (text: String)
    ensures
        text@ == SchemaVersion::V0.spec_identifier(),
{
    SchemaVersion::V0.identifier().to_string()
}

/// Reading back the identifier of a version gives that version, and a
/// declaration is accepted only where it is the identifier of the version that
/// is read from it.
pub proof fn lemma_parse_inverts_identifier(version: SchemaVersion, text: Seq<char>)
    ensures
        SchemaVersion::spec_parse(version.spec_identifier()) == Ok::<SchemaVersion, SceneError>(
            version,
        ),
        SchemaVersion::spec_parse(text) matches Ok(read) ==> read.spec_identifier() == text,
        SchemaVersion::spec_parse(text) matches Err(e) ==> e
            == SceneError::UnsupportedSchemaVersion && text != version.spec_identifier(),
{
}

} // verus!
