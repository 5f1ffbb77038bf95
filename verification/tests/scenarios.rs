use cpp_scaffold::creator::cpp_class::CppClassCreator;
use cpp_scaffold::creator::cpp_script::CppScriptCreator;
use cpp_scaffold::creator::traits::dirname::Dirname;
use cpp_scaffold::creator::traits::namespaced_creator::NamespacedCreator;
use cpp_scaffold::creator::Creator;

#[test]
fn type_name_fixed_point_on_word_pair() {
    let once = CppClassCreator::new("my class");
    assert_eq!(once.name().as_str(), "MyClass");
    let twice = CppClassCreator::new(once.name().as_str());
    assert_eq!(twice.name().as_str(), "MyClass");
}

#[test]
fn type_name_fixed_point_on_pascal_input() {
    let once = CppClassCreator::new("AlreadyPascal");
    assert_eq!(once.name().as_str(), "AlreadyPascal");
    let twice = CppClassCreator::new(once.name().as_str());
    assert_eq!(twice.name().as_str(), "AlreadyPascal");
}

#[test]
fn directory_nests_one_level_per_separator() {
    let creator = CppScriptCreator::new("tool").with_namespace("a::b::c");
    let dir = creator.directory();
    assert_eq!(dir, "./src/a/b/c");
    assert_eq!(dir.matches('/').count(), 4);
}

#[test]
fn directory_without_namespace_is_base() {
    let creator = CppScriptCreator::new("tool");
    assert_eq!(creator.directory(), "./src");
}

#[test]
fn new_script_hello_without_namespace() {
    let creator = CppScriptCreator::new("hello");
    let results = creator.contents();
    assert_eq!(results.len(), 1);
    assert_eq!(results[0].0, "./src/hello.cpp");
    let content = &results[0].1;
    assert!(content.contains("Hello, world!"));
    assert!(content.contains("return 0;"));
    assert!(!content.contains("namespace"));
}

#[test]
fn new_class_foo_in_namespace_a_b() {
    let creator = CppClassCreator::new("Foo").with_namespace("a::b");
    let results = creator.contents();
    assert_eq!(results.len(), 2);
    assert_eq!(results[0].0, "./src/a/b/foo.cpp");
    assert_eq!(results[1].0, "./src/a/b/foo.hpp");

    let source = &results[0].1;
    assert!(source.contains("#include \"foo.hpp\""));
    assert!(source.contains("namespace a::b {"));
    assert!(source.contains("} // namespace a::b"));
    assert!(source.contains("Foo::Foo() {}"));
    assert!(source.contains("Foo::~Foo() {}"));

    let header = &results[1].1;
    assert!(header.contains("namespace a::b {"));
    assert!(header.contains("} // namespace a::b"));
    assert!(header.contains("class Foo {"));
    assert!(header.contains("Foo();"));
    assert!(header.contains("~Foo();"));
    assert!(!header.contains("Foo::"));
}

#[test]
fn with_namespace_keeps_the_name() {
    let creator = CppClassCreator::new("widget maker").with_namespace("gadgets");
    assert_eq!(creator.name().as_str(), "WidgetMaker");
    assert_eq!(creator.namespace().as_deref(), Some("gadgets"));
}

#[test]
fn class_artifacts_source_before_header() {
    let creator = CppClassCreator::new("Pair");
    let results = creator.contents();
    assert_eq!(results.len(), 2);
    assert_eq!(results[0].0, "./src/pair.cpp");
    assert_eq!(results[1].0, "./src/pair.hpp");
}

#[test]
fn spaced_name_gets_underscored_stem() {
    let creator = CppClassCreator::new("My Class");
    let results = creator.contents();
    assert_eq!(results[0].0, "./src/my_class.cpp");
    assert_eq!(results[1].0, "./src/my_class.hpp");
}

#[test]
fn greedy_separator_handling_keeps_stray_colon() {
    let creator = CppScriptCreator::new("odd").with_namespace("a:::b");
    assert_eq!(creator.namespace_path().unwrap(), "a/:b");
}
