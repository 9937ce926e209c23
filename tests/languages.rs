use jughisto::language::{get_supported_languages, java_transform, no_transform, rename_public_class, Compile, Transform};

const GPP: &str = "g++ (Alpine 12.2.1_git20220924-r4) 12.2.1 20220924\nCopyright (C) 2022\n";
const GCC: &str = "gcc (GCC) 11.3.0\n";

#[test]
fn registry_names_carry_compiler_versions() {
    let registry = get_supported_languages(GPP, GCC).unwrap();
    let cpp = registry.get("cpp.17.g++").unwrap();
    assert_eq!(cpp.name, "GNU G++17 12.2.1");
    assert_eq!(cpp.order, 2);
    assert_eq!(cpp.process_limit, 1);
    assert_eq!(cpp.suffix, ".cpp");
    let c = registry.get("c.18.gcc").unwrap();
    assert_eq!(c.name, "GNU GCC C18 11.3.0");
    match &c.compile {
        Compile::Command(Transform::Identity, command, output) => {
            assert_eq!(command.binary_path, "/usr/bin/gcc");
            assert!(command.args.contains(&"-std=c18".to_string()));
            assert_eq!(output, "{output}");
        }
        _ => panic!("C compiles"),
    }
}

#[test]
fn registry_fixed_entries() {
    let registry = get_supported_languages(GPP, GCC).unwrap();
    let java = registry.get("java.8").unwrap();
    assert_eq!(java.process_limit, 19);
    assert!(matches!(java.compile, Compile::Command(Transform::JavaPublicClass, _, _)));
    let python = registry.get("python.3").unwrap();
    assert!(matches!(python.compile, Compile::NoCompile));
    assert_eq!(python.run.binary_path, "/usr/bin/python3");
    assert_eq!(python.run.args, vec!["{source}".to_string()]);
    assert_eq!(registry.get("pascal.fpc").unwrap().suffix, ".pas");
    assert!(registry.get("cobol").is_none());
}

#[test]
fn registry_needs_a_version_number() {
    assert!(get_supported_languages("g++ unknown build", GCC).is_none());
    assert!(get_supported_languages(GPP, "gcc 11.3").is_none());
}

#[test]
fn java_public_class_is_renamed() {
    let source = "import java.util.*;\npublic class Solution {\n  public static void main(String[] a) {}\n}\n".to_string();
    assert_eq!(
        java_transform(source, "program"),
        "import java.util.*;\npublic class program {\n  public static void main(String[] a) {}\n}\n"
    );
    let no_class = "class A {}".to_string();
    assert_eq!(java_transform(no_class, "program"), "class A {}");
    assert_eq!(Transform::JavaPublicClass.apply("PUBLIC  CLASS Foo{}".to_string(), "x"), "PUBLIC  CLASS x{}");
}

#[test]
fn transforms_on_given_splits() {
    let split = Some(("public class ".to_string(), "Main".to_string(), " {}".to_string()));
    assert_eq!(rename_public_class("public class Main {}".to_string(), split, "program"), "public class program {}");
    assert_eq!(rename_public_class("x".to_string(), None, "program"), "x");
    assert_eq!(no_transform("abc".to_string(), "program".to_string()), "abc");
    assert_eq!(Transform::Identity.apply("int main(){}".to_string(), "program"), "int main(){}");
}
