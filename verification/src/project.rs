//! The project's `Cargo.toml`: whether it carries the java-bindgen metadata
//! that the macros need, and the messages when it does not.
use vstd::prelude::*;
use crate::text::{chars_of, push_chars, push_str, string_of};

verus! {

/// What the macros read of a parsed `Cargo.toml`.
pub struct ProjectToml<T> {
    /// The parsed manifest.
    pub toml: T,
    /// Whether it has a `[package.metadata.java-bindgen]` table.
    pub has_java_bindgen: bool,
    /// Whether that table sets `package`.
    pub has_package: bool,
    /// The path of the file, as text.
    pub path: String,
}

/// The example that the messages show.
pub open spec fn toml_example() -> Seq<char> {
    "\n\nExample:\n[package.metadata.java-bindgen]\npackage = \"com.java.package\"\n\n"@
}

/// The message for a manifest without java-bindgen metadata.
pub open spec fn missing_metadata_msg(path: Seq<char>) -> Seq<char> {
    "Add java-bindgen metadata in your Cargo.toml file. "@ + toml_example() + "\nfile:"@ + path
}

/// The message for java-bindgen metadata without a package.
pub open spec fn missing_package_msg() -> Seq<char> {
    "Add: package = \"com.java.package\" in your Cargo.toml file."@ + toml_example()
}

/// What is wrong with a read manifest, as the message that says so; none
/// where it carries a java-bindgen package.
pub open spec fn toml_problem<T>(parsed: Result<ProjectToml<T>, String>) -> Option<Seq<char>> {
    match parsed {
        Err(e) => Some(e@),
        Ok(p) => if !p.has_java_bindgen {
            Some(missing_metadata_msg(p.path@))
        } else if !p.has_package {
            Some(missing_package_msg())
        } else {
            None
        },
    }
}

/// The manifest where it was read and carries a java-bindgen package; else
/// the message why not: the read error, missing metadata, or a missing
/// package.
pub fn parse_project_toml<T>(parsed: Result<ProjectToml<T>, String>) -> (r: Result<T, String>)
    ensures
        match parsed {
            Err(e) => r matches Err(m) && m@ == e@,
            Ok(p) => if !p.has_java_bindgen {
                r matches Err(m) && m@ == missing_metadata_msg(p.path@)
            } else if !p.has_package {
                r matches Err(m) && m@ == missing_package_msg()
            } else {
                r matches Ok(t) && t == p.toml
            },
        },
        r is Ok <==> toml_problem(parsed) is None,
        r matches Err(m) ==> toml_problem(parsed) == Some(m@),
{
    match parsed {
        Ok(p) => {
            if !p.has_java_bindgen {
                let mut m: Vec<char> = Vec::new();
                push_str(&mut m, "Add java-bindgen metadata in your Cargo.toml file. ");
                push_str(&mut m, "\n\nExample:\n[package.metadata.java-bindgen]\npackage = \"com.java.package\"\n\n");
                push_str(&mut m, "\nfile:");
                push_chars(&mut m, chars_of(p.path.as_str()).as_slice());
                assert(m@ =~= missing_metadata_msg(p.path@));
                return Err(string_of(m.as_slice()));
            }
            if !p.has_package {
                let mut m: Vec<char> = Vec::new();
                push_str(&mut m, "Add: package = \"com.java.package\" in your Cargo.toml file.");
                push_str(&mut m, "\n\nExample:\n[package.metadata.java-bindgen]\npackage = \"com.java.package\"\n\n");
                assert(m@ =~= missing_package_msg());
                return Err(string_of(m.as_slice()));
            }
            Ok(p.toml)
        },
        Err(e) => Err(e),
    }
}

/// The project directory: the value of `CARGO_MANIFEST_DIR` where it is
/// set, else the current directory `.`.
pub fn project_dir_from(manifest_dir: Option<String>) -> (r: String)
    ensures
        manifest_dir matches Some(d) ==> r@ == d@,
        manifest_dir is None ==> r@ == "."@,
{
    match manifest_dir {
        Some(d) => d,
        None => String::from_str("."),
    }
}

} // verus!
