use cpp_scaffold::creator::cpp_class::CppClassCreator;
use cpp_scaffold::creator::cpp_script::CppScriptCreator;
use cpp_scaffold::creator::traits::dirname::Dirname;
use cpp_scaffold::creator::traits::header_creator::HeaderCreator;
use cpp_scaffold::creator::traits::namespaced_creator::NamespacedCreator;
use cpp_scaffold::creator::traits::src_creator::SrcCreator;
use cpp_scaffold::creator::Creator;

#[test]
fn cpp_class_filenames_ok() {
    let creator = CppClassCreator::new("Class");
    assert_eq!(creator.src_filepath(), "./src/class.cpp");
    assert_eq!(creator.src_basename(), "class.cpp");
    assert_eq!(creator.header_filepath(), "./src/class.hpp");
    assert_eq!(creator.header_basename(), "class.hpp");
}

#[test]
fn namespaced_filenames_ok() {
    let creator = CppClassCreator::new("class").with_namespace("test_namespace");
    assert_eq!(creator.src_filepath(), "./src/test_namespace/class.cpp");
    assert_eq!(creator.src_basename(), "class.cpp");
    assert_eq!(creator.header_filepath(), "./src/test_namespace/class.hpp");
    assert_eq!(creator.header_basename(), "class.hpp");
}

#[test]
fn src_contents_ok() {
    let creator = CppClassCreator::new("class");
    assert_eq!(
        creator.src_content(),
        "#include \"class.hpp\"\n\nClass::Class() {}\nClass::~Class() {}\n"
    );
}

#[test]
fn namespaced_src_contents_ok() {
    let creator = CppClassCreator::new("Class").with_namespace("test_namespace");
    assert_eq!(
        creator.src_content(),
        "#include \"class.hpp\"\n\nnamespace test_namespace {\nClass::Class() {}\nClass::~Class() {}\n} // namespace test_namespace\n"
    );
}

#[test]
fn header_contents_okay() {
    let creator = CppClassCreator::new("Class");
    assert_eq!(
        creator.header_content(),
        "#pragma once\n\nclass Class {\npublic:\n  Class();\n  ~Class();\n};\n"
    );
}

#[test]
fn namespaced_header_contents_okay() {
    let creator = CppClassCreator::new("Class").with_namespace("test_namespace");
    assert_eq!(
        creator.header_content(),
        "#pragma once\n\nnamespace test_namespace {\nclass Class {\npublic:\n  Class();\n  ~Class();\n};\n} // namespace test_namespace\n"
    );
}

#[test]
fn cpp_script_filenames_ok() {
    let creator = CppScriptCreator::new("script").with_namespace("test_namespace");
    assert_eq!(creator.src_filepath(), "./src/test_namespace/script.cpp");
    assert_eq!(creator.src_dirname(), "./src/test_namespace");

    let results = creator.contents();
    assert_eq!(results.len(), 1);
    assert_eq!(results[0].0, creator.src_filepath());
}

#[test]
fn creator_script() {
    let creator = CppScriptCreator::new("script").with_namespace("test_namespace");
    let results = creator.contents();
    assert_eq!(results.len(), 1);
    assert_eq!(results[0].0, "./src/test_namespace/script.cpp");
    assert_eq!(
        results[0].1,
        "#include <iostream>\n\nnamespace test_namespace {\nint main(int argc, char** argv) {\n  std::cout << \"Hello, world!\" << std::endl;\n  return 0;\n}\n} // namespace test_namespace\n"
    );
}

#[test]
fn creator_script_no_namespace() {
    let creator = CppScriptCreator::new("script");
    let results = creator.contents();
    assert_eq!(results.len(), 1);
    assert_eq!(results[0].0, "./src/script.cpp");
    assert_eq!(
        results[0].1,
        "#include <iostream>\n\nint main(int argc, char** argv) {\n  std::cout << \"Hello, world!\" << std::endl;\n  return 0;\n}\n"
    );
}

#[test]
fn namespace_path_single() {
    let creator = CppScriptCreator::new("dummy").with_namespace("foo");
    assert!(creator.namespace_path().is_some());
    assert_eq!(creator.namespace_path().unwrap(), "foo");
}

#[test]
fn namespace_path_double() {
    let creator = CppScriptCreator::new("dummy").with_namespace("foo::bar");
    assert!(creator.namespace_path().is_some());
    assert_eq!(creator.namespace_path().unwrap(), "foo/bar");
}

#[test]
fn namespace_path_triple() {
    let creator = CppScriptCreator::new("dummy").with_namespace("foo::bar::baz");
    assert!(creator.namespace_path().is_some());
    assert_eq!(creator.namespace_path().unwrap(), "foo/bar/baz");
}

#[test]
fn namespace_path_none() {
    let creator = CppScriptCreator::new("dummy");
    assert!(creator.namespace_path().is_none());
}
