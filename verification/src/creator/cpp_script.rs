//! Generation of a C++ script: a single source file with a program entry
//! point that prints a greeting.

use vstd::prelude::*;

use crate::casing::{stem, stem_of};
use crate::creator::Creator;
use crate::creator::traits::dirname::Dirname;
use crate::creator::traits::namespaced_creator::{
    dir_view_of, scope_sep_to_slash, NamespacedCreator,
};
use crate::creator::traits::src_creator::SrcCreator;
use crate::opt_str_view;
use crate::text::{wrap_in_namespace, wrapped_view};

verus! {

/// The body of a script source file: an entry point that prints a fixed
/// greeting and returns success.
pub open spec fn script_source_body() -> Seq<char> {
    "int main(int argc, char** argv) {\n  std::cout << \"Hello, world!\" << std::endl;\n  return 0;\n}\n"@
}

/// The text of a script source file: an include of the stream header, then
/// the entry point, wrapped in the namespace block when a namespace is
/// present.
pub open spec fn script_source_view(ns: Option<Seq<char>>) -> Seq<char> {
    "#include <iostream>\n\n"@ + wrapped_view(ns, script_source_body())
}

/// Generates a C++ script: one source file.
pub struct CppScriptCreator {
    pub name: String,
    pub namespace: Option<String>,
}

impl Creator for CppScriptCreator {
    open spec fn name_view(&self) -> Seq<char> {
        self.name@
    }

    open spec fn created(name: Seq<char>, c: Self) -> bool {
        &&& c.name@ == name
        &&& c.namespace is None
    }

    open spec fn contents_view(&self) -> Seq<(Seq<char>, Seq<char>)> {
        seq![
            (
                dir_view_of(opt_str_view(&self.namespace)) + "/"@ + stem_of(self.name@) + ".cpp"@,
                script_source_view(opt_str_view(&self.namespace)),
            ),
        ]
    }

    fn new(name: &str) -> (r: Self) {
        CppScriptCreator { name: name.to_owned(), namespace: None }
    }

    fn name(&self) -> (r: &String) {
        &self.name
    }

    fn contents(&self) -> (r: Vec<(String, String)>) {
        let src = (self.src_filepath(), self.src_content());
        let mut v: Vec<(String, String)> = Vec::new();
        v.push(src);
        proof {
            assert(v.deep_view() =~~= self.contents_view());
        }
        v
    }
}

impl SrcCreator for CppScriptCreator {
    open spec fn src_name_view(&self) -> Seq<char> {
        self.name@
    }

    open spec fn src_content_view(&self) -> Seq<char> {
        script_source_view(opt_str_view(&self.namespace))
    }

    fn src_dirname(&self) -> (r: String) {
        self.directory()
    }

    fn src_basename(&self) -> (r: String) {
        let b = stem(self.name.as_str());
        b.concat(".cpp")
    }

    fn src_content(&self) -> (r: String) {
        let wrapped = wrap_in_namespace(
            &self.namespace,
            "int main(int argc, char** argv) {\n  std::cout << \"Hello, world!\" << std::endl;\n  return 0;\n}\n",
        );
        let mut r = "#include <iostream>\n\n".to_owned();
        r.append(wrapped.as_str());
        proof {
            assert(r@ =~= self.src_content_view());
        }
        r
    }
}

impl Dirname for CppScriptCreator {
    open spec fn dir_view(&self) -> Seq<char> {
        dir_view_of(opt_str_view(&self.namespace))
    }

    fn directory(&self) -> (r: String) {
        match &self.namespace {
            Some(ns) => {
                let mut d = "./src/".to_owned();
                let path = scope_sep_to_slash(ns.as_str());
                d.append(path.as_str());
                d
            },
            None => "./src".to_owned(),
        }
    }
}

impl NamespacedCreator for CppScriptCreator {
    open spec fn namespace_view(&self) -> Option<Seq<char>> {
        opt_str_view(&self.namespace)
    }

    fn with_namespace(self, namespace: &str) -> (r: Self) {
        CppScriptCreator { namespace: Some(namespace.to_owned()), ..self }
    }

    fn namespace(&self) -> (r: &Option<String>) {
        &self.namespace
    }
}

} // verus!
