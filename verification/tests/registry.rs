use cipher_host::registry::{Algorithm, ConfigError, Registry};
use wasmtime::component::Component;
use wasmtime::Engine;

const CORE: &str = "(core module $m
  (memory (export \"memory\") 1)
  (func (export \"realloc\") (param i32 i32 i32 i32) (result i32) i32.const 0)
  (func (export \"text\") (param i32 i32) (result i32) i32.const 0)
  (func (export \"silent\") (param i32 i32))
  (func (export \"pair\") (param i32 i32 i32 i32) (result i32) i32.const 0)
  (func (export \"number\") (param i32) (result i32) local.get 0)
  (func (export \"bare\")))
(core instance $i (instantiate $m))
(alias core export $i \"memory\" (core memory $memory))
(alias core export $i \"realloc\" (core func $realloc))
";

const ABI: &str = "(memory $memory) (realloc (core func $realloc))";

/// A component that exports each name as an item of the given kind.
fn shaped(exports: &[(&str, &str)]) -> Vec<u8> {
    let mut text = format!("(component\n{}", CORE);
    for (name, kind) in exports {
        let item = match *kind {
            "text" => format!(
                "(func (export \"{}\") (param \"input\" string) (result string)
                   (canon lift (core func $i \"text\") {}))",
                name, ABI
            ),
            "silent" => format!(
                "(func (export \"{}\") (param \"input\" string)
                   (canon lift (core func $i \"silent\") {}))",
                name, ABI
            ),
            "pair" => format!(
                "(func (export \"{}\") (param \"input\" string) (param \"key\" string)
                   (result string) (canon lift (core func $i \"pair\") {}))",
                name, ABI
            ),
            "number" => format!(
                "(func (export \"{}\") (param \"input\" u32) (result u32)
                   (canon lift (core func $i \"number\")))",
                name
            ),
            "bare" => format!(
                "(func (export \"{}\") (canon lift (core func $i \"bare\")))",
                name
            ),
            "instance" => format!("(instance ${0}) (export \"{0}\" (instance ${0}))", name),
            other => panic!("no such kind of export: {}", other),
        };
        text.push_str(&item);
        text.push('\n');
    }
    text.push(')');
    wat::parse_str(&text).expect("the component text is well formed")
}

/// A component that exports each name as a function from a string to a
/// string.
fn binary(exports: &[&str]) -> Vec<u8> {
    let shapes: Vec<(&str, &str)> = exports.iter().map(|name| (*name, "text")).collect();
    shaped(&shapes)
}

fn pairs(entries: &[(&str, &str)]) -> Vec<(String, String)> {
    entries.iter().map(|(name, value)| (name.to_string(), value.to_string())).collect()
}

#[test]
fn algorithms_are_named_as_requests_spell_them() {
    assert_eq!(Algorithm::Caesar.name(), "Caesar");
    assert_eq!(Algorithm::Vigenere.name(), "Vigenere");
    assert_eq!(Algorithm::from_name("Caesar"), Some(Algorithm::Caesar));
    assert_eq!(Algorithm::from_name("Vigenere"), Some(Algorithm::Vigenere));
    for algorithm in [Algorithm::Caesar, Algorithm::Vigenere] {
        assert_eq!(Algorithm::from_name(algorithm.name()), Some(algorithm));
    }
}

#[test]
fn other_texts_name_no_algorithm() {
    let texts =
        ["", "caesar", "CAESAR", "Caesar ", " Caesar", "Caesa", "Vigen\u{e8}re", "not-a-real-key"];
    for text in texts {
        assert_eq!(Algorithm::from_name(text), None, "{:?}", text);
    }
}

#[test]
fn new_registry_knows_no_key() {
    let registry = Registry::new();
    assert_eq!(registry.lookup(Algorithm::Caesar).err(), Some(ConfigError::UnknownKey));
    assert_eq!(registry.lookup(Algorithm::Vigenere).err(), Some(ConfigError::UnknownKey));
}

#[test]
fn load_without_a_binary_reports_it_missing() {
    let engine = Engine::default();
    let mut registry = Registry::new();
    assert_eq!(
        registry.load(&engine, Algorithm::Caesar, None, vec![]),
        Err(ConfigError::MissingBinary)
    );
    assert_eq!(registry.lookup(Algorithm::Caesar).err(), Some(ConfigError::UnknownKey));
}

#[test]
fn load_refuses_what_is_no_component() {
    let engine = Engine::default();
    let mut registry = Registry::new();
    let module = wat::parse_str("(module)").expect("the module text is well formed");
    for bytes in [&b""[..], &b"not a binary"[..], &b"\0asm"[..], &module[..]] {
        assert_eq!(
            registry.load(&engine, Algorithm::Caesar, Some(bytes), vec![]),
            Err(ConfigError::MalformedBinary)
        );
        assert_eq!(registry.lookup(Algorithm::Caesar).err(), Some(ConfigError::UnknownKey));
    }
}

#[test]
fn load_refuses_a_component_that_lacks_an_operation() {
    let engine = Engine::default();
    let mut registry = Registry::new();
    let lacking: [&[&str]; 5] =
        [&[], &["encr"], &["decr"], &["encode", "decode"], &["encr", "decrypt"]];
    for exports in lacking {
        assert_eq!(
            registry.load(&engine, Algorithm::Vigenere, Some(&binary(exports)), vec![]),
            Err(ConfigError::MalformedBinary)
        );
        assert_eq!(registry.lookup(Algorithm::Vigenere).err(), Some(ConfigError::UnknownKey));
    }
}

#[test]
fn load_refuses_an_operation_that_is_no_function() {
    let engine = Engine::default();
    let mut registry = Registry::new();
    for exports in [
        [("encr", "instance"), ("decr", "text")],
        [("encr", "text"), ("decr", "instance")],
    ] {
        assert_eq!(
            registry.load(&engine, Algorithm::Caesar, Some(&shaped(&exports)), vec![]),
            Err(ConfigError::MalformedBinary)
        );
        assert_eq!(registry.lookup(Algorithm::Caesar).err(), Some(ConfigError::UnknownKey));
    }
}

#[test]
fn load_refuses_an_operation_of_another_signature() {
    let engine = Engine::default();
    let mut registry = Registry::new();
    for kind in ["bare", "silent", "pair", "number"] {
        for exports in [[("encr", kind), ("decr", "text")], [("encr", "text"), ("decr", kind)]] {
            assert_eq!(
                registry.load(&engine, Algorithm::Caesar, Some(&shaped(&exports)), vec![]),
                Err(ConfigError::MalformedBinary),
                "{:?}",
                exports
            );
            assert_eq!(registry.lookup(Algorithm::Caesar).err(), Some(ConfigError::UnknownKey));
        }
    }
}

#[test]
fn load_gives_the_same_outcome_for_the_same_binary() {
    let engine = Engine::default();
    let mut registry = Registry::new();
    let good = binary(&["encr", "decr"]);
    let bad = binary(&["encr"]);
    for _ in 0..3 {
        assert_eq!(registry.load(&engine, Algorithm::Caesar, Some(&good), vec![]), Ok(()));
        assert_eq!(
            registry.load(&engine, Algorithm::Vigenere, Some(&bad), vec![]),
            Err(ConfigError::MalformedBinary)
        );
    }
}

#[test]
fn load_stores_the_plugin_with_its_configuration() {
    let engine = Engine::default();
    let mut registry = Registry::new();
    let config = pairs(&[("SHIFT_AMOUNT", "5"), ("MODE", "fast")]);
    assert_eq!(
        registry.load(&engine, Algorithm::Caesar, Some(&binary(&["encr", "decr"])), config.clone()),
        Ok(())
    );
    let guest = registry.lookup(Algorithm::Caesar).ok().expect("the plugin is registered");
    assert_eq!(guest.env_vars, config);
    assert!(guest.component.get_export_index(None, "encr").is_some());
    assert!(guest.component.get_export_index(None, "decr").is_some());
    assert_eq!(registry.lookup(Algorithm::Vigenere).err(), Some(ConfigError::UnknownKey));
}

#[test]
fn load_accepts_further_exports() {
    let engine = Engine::default();
    let mut registry = Registry::new();
    assert_eq!(
        registry.load(
            &engine,
            Algorithm::Caesar,
            Some(&binary(&["version", "decr", "encr"])),
            vec![]
        ),
        Ok(())
    );
    let mixed = [("audit", "instance"), ("encr", "text"), ("count", "number"), ("decr", "text")];
    assert_eq!(registry.load(&engine, Algorithm::Vigenere, Some(&shaped(&mixed)), vec![]), Ok(()));
}

#[test]
fn load_of_a_second_key_keeps_the_first() {
    let engine = Engine::default();
    let mut registry = Registry::new();
    let caesar = pairs(&[("SHIFT_AMOUNT", "5")]);
    let vigenere = pairs(&[("VIGENERE_KEYWORD", "KEY")]);
    let plugin = binary(&["encr", "decr"]);
    assert_eq!(registry.load(&engine, Algorithm::Caesar, Some(&plugin), caesar.clone()), Ok(()));
    assert_eq!(
        registry.load(&engine, Algorithm::Vigenere, Some(&plugin), vigenere.clone()),
        Ok(())
    );
    assert_eq!(registry.lookup(Algorithm::Caesar).ok().map(|g| g.env_vars.clone()), Some(caesar));
    assert_eq!(
        registry.lookup(Algorithm::Vigenere).ok().map(|g| g.env_vars.clone()),
        Some(vigenere)
    );
}

#[test]
fn load_under_a_registered_key_replaces_the_plugin() {
    let engine = Engine::default();
    let mut registry = Registry::new();
    let plugin = binary(&["encr", "decr"]);
    assert_eq!(
        registry.load(&engine, Algorithm::Caesar, Some(&plugin), pairs(&[("SHIFT_AMOUNT", "5")])),
        Ok(())
    );
    assert_eq!(
        registry.load(&engine, Algorithm::Caesar, Some(&plugin), pairs(&[("SHIFT_AMOUNT", "7")])),
        Ok(())
    );
    assert_eq!(
        registry.lookup(Algorithm::Caesar).ok().map(|g| g.env_vars.clone()),
        Some(pairs(&[("SHIFT_AMOUNT", "7")]))
    );
}

#[test]
fn failed_load_keeps_what_was_registered() {
    let engine = Engine::default();
    let mut registry = Registry::new();
    let config = pairs(&[("SHIFT_AMOUNT", "5")]);
    assert_eq!(
        registry.load(&engine, Algorithm::Caesar, Some(&binary(&["encr", "decr"])), config.clone()),
        Ok(())
    );
    assert_eq!(
        registry.load(&engine, Algorithm::Caesar, Some(b"broken"), vec![]),
        Err(ConfigError::MalformedBinary)
    );
    assert_eq!(
        registry.load(&engine, Algorithm::Caesar, None, vec![]),
        Err(ConfigError::MissingBinary)
    );
    assert_eq!(
        registry.load(&engine, Algorithm::Caesar, Some(&binary(&["encr"])), vec![]),
        Err(ConfigError::MalformedBinary)
    );
    assert_eq!(registry.lookup(Algorithm::Caesar).ok().map(|g| g.env_vars.clone()), Some(config));
}

#[test]
fn install_judges_what_compilation_gave() {
    let engine = Engine::default();
    let mut registry = Registry::new();
    assert_eq!(
        registry.install(Algorithm::Caesar, Err(wasmtime::Error::msg("no component")), vec![]),
        Err(ConfigError::MalformedBinary)
    );
    assert_eq!(
        registry.install(
            Algorithm::Caesar,
            Component::from_binary(&engine, &binary(&["decr"])),
            vec![]
        ),
        Err(ConfigError::MalformedBinary)
    );
    assert_eq!(
        registry.install(
            Algorithm::Caesar,
            Component::from_binary(&engine, &shaped(&[("encr", "text"), ("decr", "number")])),
            vec![]
        ),
        Err(ConfigError::MalformedBinary)
    );
    assert_eq!(registry.lookup(Algorithm::Caesar).err(), Some(ConfigError::UnknownKey));
    assert_eq!(
        registry.install(
            Algorithm::Caesar,
            Component::from_binary(&engine, &binary(&["encr", "decr"])),
            pairs(&[("SHIFT_AMOUNT", "3")])
        ),
        Ok(())
    );
    assert_eq!(
        registry.lookup(Algorithm::Caesar).ok().map(|g| g.env_vars.clone()),
        Some(pairs(&[("SHIFT_AMOUNT", "3")]))
    );
}

#[test]
fn resolve_finds_a_registered_plugin_by_its_name() {
    let engine = Engine::default();
    let mut registry = Registry::new();
    let config = pairs(&[("SHIFT_AMOUNT", "5")]);
    assert_eq!(
        registry.load(&engine, Algorithm::Caesar, Some(&binary(&["encr", "decr"])), config.clone()),
        Ok(())
    );
    assert_eq!(registry.resolve("Caesar").ok().map(|g| g.env_vars.clone()), Some(config));
}

#[test]
fn resolve_rejects_what_is_no_key() {
    let engine = Engine::default();
    let mut registry = Registry::new();
    assert_eq!(registry.resolve("not-a-real-key").err(), Some(ConfigError::UnknownKey));
    assert_eq!(
        registry.load(&engine, Algorithm::Caesar, Some(&binary(&["encr", "decr"])), vec![]),
        Ok(())
    );
    assert_eq!(registry.resolve("not-a-real-key").err(), Some(ConfigError::UnknownKey));
    assert_eq!(registry.resolve("caesar").err(), Some(ConfigError::UnknownKey));
    assert_eq!(registry.resolve("").err(), Some(ConfigError::UnknownKey));
}

#[test]
fn resolve_rejects_an_algorithm_without_a_plugin() {
    let engine = Engine::default();
    let mut registry = Registry::new();
    assert_eq!(registry.resolve("Vigenere").err(), Some(ConfigError::UnknownKey));
    assert_eq!(
        registry.load(&engine, Algorithm::Caesar, Some(&binary(&["encr", "decr"])), vec![]),
        Ok(())
    );
    assert_eq!(registry.resolve("Vigenere").err(), Some(ConfigError::UnknownKey));
    assert!(registry.resolve("Caesar").is_ok());
}
