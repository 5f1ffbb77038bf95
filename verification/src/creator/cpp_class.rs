//! Generation of a C++ class: a source/header file pair with conventional
//! names, placed under the namespace's directory.

use vstd::prelude::*;

use crate::casing::{pascal_of, stem, stem_of, to_pascal};
use crate::creator::Creator;
use crate::creator::traits::dirname::Dirname;
use crate::creator::traits::header_creator::HeaderCreator;
use crate::creator::traits::namespaced_creator::{
    dir_view_of, scope_sep_to_slash, NamespacedCreator,
};
use crate::creator::traits::src_creator::SrcCreator;
use crate::opt_str_view;
use crate::text::{wrap_in_namespace, wrapped_view};

verus! {

/// The body of a class source file: out-of-line, empty-bodied definitions
/// of the default constructor and destructor.
pub open spec fn class_source_body(name: Seq<char>) -> Seq<char> {
    name + "::"@ + name + "() {}\n"@ + name + "::~"@ + name + "() {}\n"@
}

/// The text of a class source file: an include of the sibling header,
/// then the constructor and destructor definitions, wrapped in the
/// namespace block when a namespace is present.
pub open spec fn class_source_view(name: Seq<char>, ns: Option<Seq<char>>) -> Seq<char> {
    "#include \""@ + stem_of(name) + ".hpp"@ + "\"\n\n"@ + wrapped_view(
        ns,
        class_source_body(name),
    )
}

/// The body of a class header file: the class declaration with a
/// declared-only default constructor and destructor.
pub open spec fn class_header_body(name: Seq<char>) -> Seq<char> {
    "class "@ + name + " {\npublic:\n  "@ + name + "();\n  ~"@ + name + "();\n};\n"@
}

/// The text of a class header file: `#pragma once`, then the class
/// declaration, wrapped in the namespace block when a namespace is present.
pub open spec fn class_header_view(name: Seq<char>, ns: Option<Seq<char>>) -> Seq<char> {
    "#pragma once\n\n"@ + wrapped_view(ns, class_header_body(name))
}

/// Generates a C++ class: one source file and one header file.
pub struct CppClassCreator {
    pub name: String,
    pub namespace: Option<String>,
}

impl Creator for CppClassCreator {
    open spec fn name_view(&self) -> Seq<char> {
        self.name@
    }

    open spec fn created(name: Seq<char>, c: Self) -> bool {
        &&& c.name@ == pascal_of(name)
        &&& c.namespace is None
    }

    open spec fn contents_view(&self) -> Seq<(Seq<char>, Seq<char>)> {
        seq![
            (
                dir_view_of(opt_str_view(&self.namespace)) + "/"@ + stem_of(self.name@) + ".cpp"@,
                class_source_view(self.name@, opt_str_view(&self.namespace)),
            ),
            (
                dir_view_of(opt_str_view(&self.namespace)) + "/"@ + stem_of(self.name@) + ".hpp"@,
                class_header_view(self.name@, opt_str_view(&self.namespace)),
            ),
        ]
    }

    fn new(name: &str) -> (r: Self) {
        CppClassCreator { name: to_pascal(name), namespace: None }
    }

    fn name(&self) -> (r: &String) {
        &self.name
    }

    fn contents(&self) -> (r: Vec<(String, String)>) {
        let src = (self.src_filepath(), self.src_content());
        let hdr = (self.header_filepath(), self.header_content());
        let mut v: Vec<(String, String)> = Vec::new();
        v.push(src);
        v.push(hdr);
        proof {
            assert(v.deep_view() =~~= self.contents_view());
        }
        v
    }
}

impl SrcCreator for CppClassCreator {
    open spec fn src_name_view(&self) -> Seq<char> {
        self.name@
    }

    open spec fn src_content_view(&self) -> Seq<char> {
        class_source_view(self.name@, opt_str_view(&self.namespace))
    }

    fn src_dirname(&self) -> (r: String) {
        self.directory()
    }

    fn src_basename(&self) -> (r: String) {
        let b = stem(self.name.as_str());
        b.concat(".cpp")
    }

    fn src_content(&self) -> (r: String) {
        let mut body = String::new();
        body.append(self.name.as_str());
        body.append("::");
        body.append(self.name.as_str());
        body.append("() {}\n");
        body.append(self.name.as_str());
        body.append("::~");
        body.append(self.name.as_str());
        body.append("() {}\n");
        proof {
            assert(body@ =~= class_source_body(self.name@));
        }
        let wrapped = wrap_in_namespace(&self.namespace, body.as_str());
        let mut r = "#include \"".to_owned();
        let header = self.header_basename();
        r.append(header.as_str());
        r.append("\"\n\n");
        r.append(wrapped.as_str());
        proof {
            assert(r@ =~= self.src_content_view());
        }
        r
    }
}

impl HeaderCreator for CppClassCreator {
    open spec fn header_name_view(&self) -> Seq<char> {
        self.name@
    }

    open spec fn header_content_view(&self) -> Seq<char> {
        class_header_view(self.name@, opt_str_view(&self.namespace))
    }

    fn header_dirname(&self) -> (r: String) {
        self.directory()
    }

    fn header_basename(&self) -> (r: String) {
        let b = stem(self.name.as_str());
        b.concat(".hpp")
    }

    fn header_content(&self) -> (r: String) {
        let mut body = "class ".to_owned();
        body.append(self.name.as_str());
        body.append(" {\npublic:\n  ");
        body.append(self.name.as_str());
        body.append("();\n  ~");
        body.append(self.name.as_str());
        body.append("();\n};\n");
        proof {
            assert(body@ =~= class_header_body(self.name@));
        }
        let wrapped = wrap_in_namespace(&self.namespace, body.as_str());
        let mut r = "#pragma once\n\n".to_owned();
        r.append(wrapped.as_str());
        proof {
            assert(r@ =~= self.header_content_view());
        }
        r
    }
}

impl Dirname for CppClassCreator {
    open spec fn dir_view(&self) -> Seq<char> {
        dir_view_of(opt_str_view(&self.namespace))
    }

    fn directory(&self) -> (r: String) {
        match &self.namespace {
            Some(ns) => {
                let mut d = "./src/".to_owned();
                let path = scope_sep_to_slash(ns.as_str());
                d.append(path.as_str());
                d
            },
            None => "./src".to_owned(),
        }
    }
}

impl NamespacedCreator for CppClassCreator {
    open spec fn namespace_view(&self) -> Option<Seq<char>> {
        opt_str_view(&self.namespace)
    }

    fn with_namespace(self, namespace: &str) -> (r: Self) {
        CppClassCreator { namespace: Some(namespace.to_owned()), ..self }
    }

    fn namespace(&self) -> (r: &Option<String>) {
        &self.namespace
    }
}

} // verus!
