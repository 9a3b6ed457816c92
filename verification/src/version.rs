//! The version, for people and for programs.

use crate::json::{encoded, put_text};
use crate::onboarding::CONTRACT;
use vstd::prelude::*;

#[allow(unused_imports)]
use crate::json::{is_one_line, no_fields, object_text, JsonField};

verus! {

/// The fields of the object that tells the version.
pub open spec fn version_fields(version: Seq<char>) -> Map<Seq<char>, JsonField> {
    no_fields().insert("version"@, JsonField::Text(version)).insert(
        "contract"@,
        JsonField::Text(CONTRACT@),
    )
}

/// The line that tells the version.
pub open spec fn version_text(json: bool, version: Seq<char>) -> Seq<char> {
    if json {
        object_text(version_fields(version))
    } else {
        "tgcli "@ + version
    }
}

/// The line that tells the version: an object with the contract beside it, or a plain line.
pub fn run(json: bool, version: &str) -> (res: String)
    ensures
        res@ == (if json {
            object_text(version_fields(version@))
        } else {
            "tgcli "@ + version@
        }),
        res@ == version_text(json, version@),
        json || is_one_line(version@) ==> is_one_line(res@),
{
    if json {
        let mut object = serde_json::Map::<String, serde_json::Value>::new();
        put_text(&mut object, "version", Some(version.to_string()));
        put_text(&mut object, "contract", Some(CONTRACT.to_string()));
        encoded(object)
    } else {
        proof {
            reveal_strlit("tgcli ");
        }
        let mut line = "tgcli ".to_string();
        line.append(version);
        line
    }
}

/// The plain line tells the version apart from every other, behind the program's name.
pub proof fn versions_are_told_apart(version: Seq<char>, other: Seq<char>)
    ensures
        version_text(false, version) == version_text(false, other) ==> version == other,
        version_text(false, version).take(6) == "tgcli "@,
        version_text(false, version).skip(6) == version,
{
    reveal_strlit("tgcli ");
    assert("tgcli "@.len() == 6);
    assert(version_text(false, version).skip(6) =~= version);
    assert(version_text(false, other).skip(6) =~= other);
    assert(version_text(false, version).take(6) =~= "tgcli "@);
}

} // verus!
