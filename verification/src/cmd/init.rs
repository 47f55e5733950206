//! Contents of the files `lang init` writes for a new project.

use vstd::prelude::*;
use crate::text::{owned, push_str};

verus! {

/// The `deps.json` manifest of a new project with the given name.
pub open spec fn deps_json_text(name: Seq<char>) -> Seq<char> {
    "{\n  \"name\": \""@ + name
        + "\",\n  \"version\": \"0.1.0\",\n  \"description\": \"A Lang project\",\n  \"dependencies\": {\n    \"io\": \"*\",\n    \"builtin\": \"*\"\n  },\n  \"devDependencies\": {},\n  \"type\": \"lang-package\"\n}\n"@
}

/// The `main.lang` entry point of a new project.
pub open spec fn main_file_text() -> Seq<char> {
    "// Main entry point for the project\n\nfn main() {\n    io.println(\"Hello, World!\");\n}\n"@
}

/// The `deps.json` content for a project.
pub fn create_deps_json(name: &str) -> (r: String)
    ensures
        r@ == deps_json_text(name@),
{
    let mut r = owned("{\n  \"name\": \"");
    push_str(&mut r, name);
    push_str(&mut r, "\",\n  \"version\": \"0.1.0\",\n  \"description\": \"A Lang project\",\n  \"dependencies\": {\n    \"io\": \"*\",\n    \"builtin\": \"*\"\n  },\n  \"devDependencies\": {},\n  \"type\": \"lang-package\"\n}\n");
    r
}

/// The `main.lang` content for a project.
pub fn create_main_file() -> (r: String)
    ensures
        r@ == main_file_text(),
{
    owned("// Main entry point for the project\n\nfn main() {\n    io.println(\"Hello, World!\");\n}\n")
}

} // verus!
