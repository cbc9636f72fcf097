use reml_frontend::build_config::{
    validate_build_config, BindgenSection, BuildConfig, FfiSection, LinkerSection,
};

fn strings(items: &[&str]) -> Vec<String> {
    items.iter().map(|s| s.to_string()).collect()
}

fn summary(config: &BuildConfig) -> Vec<(Option<String>, String)> {
    validate_build_config(config).into_iter().map(|v| (v.field, v.message)).collect()
}

#[test]
fn no_ffi_section_has_no_violations() {
    assert!(validate_build_config(&BuildConfig { ffi: None }).is_empty());
}

#[test]
fn valid_ffi_section_has_no_violations() {
    let config = BuildConfig {
        ffi: Some(FfiSection {
            libraries: strings(&["m"]),
            headers: strings(&["math.h"]),
            bindgen: Some(BindgenSection {
                enabled: true,
                output: Some("gen/math.reml".to_string()),
                config: None,
                manifest: None,
            }),
            linker: Some(LinkerSection {
                search_paths: strings(&["/usr/lib"]),
                frameworks: Vec::new(),
                extra_args: strings(&["-lm"]),
            }),
        }),
    };
    assert!(validate_build_config(&config).is_empty());
}

#[test]
fn every_blank_entry_and_missing_output_is_reported_in_order() {
    let config = BuildConfig {
        ffi: Some(FfiSection {
            libraries: strings(&["m", " "]),
            headers: strings(&["", "a.h", "\t"]),
            bindgen: Some(BindgenSection {
                enabled: true,
                output: Some("  ".to_string()),
                config: Some("".to_string()),
                manifest: None,
            }),
            linker: Some(LinkerSection {
                search_paths: strings(&[""]),
                frameworks: strings(&["Cocoa", " "]),
                extra_args: strings(&["", "-v"]),
            }),
        }),
    };
    let f = |s: &str| Some(s.to_string());
    assert_eq!(
        summary(&config),
        vec![
            (f("ffi.libraries[1]"), "ffi.libraries に空のエントリがあります".to_string()),
            (f("ffi.headers[0]"), "ffi.headers に空のエントリがあります".to_string()),
            (f("ffi.headers[2]"), "ffi.headers に空のエントリがあります".to_string()),
            (f("ffi.bindgen.output"), "ffi.bindgen.enabled=true の場合は output が必須です".to_string()),
            (f("ffi.bindgen.config"), "ffi.bindgen.config が空文字列です".to_string()),
            (f("ffi.linker.search_paths[0]"), "ffi.linker.search_paths に空のエントリがあります".to_string()),
            (f("ffi.linker.frameworks[1]"), "ffi.linker.frameworks に空のエントリがあります".to_string()),
            (f("ffi.linker.extra_args[0]"), "ffi.linker.extra_args に空のエントリがあります".to_string()),
        ]
    );
}

#[test]
fn disabled_generator_needs_no_output() {
    let config = BuildConfig {
        ffi: Some(FfiSection {
            libraries: Vec::new(),
            headers: Vec::new(),
            bindgen: Some(BindgenSection { enabled: false, output: None, config: None, manifest: None }),
            linker: None,
        }),
    };
    assert!(validate_build_config(&config).is_empty());
    let enabled = BuildConfig {
        ffi: Some(FfiSection {
            libraries: Vec::new(),
            headers: Vec::new(),
            bindgen: Some(BindgenSection { enabled: true, output: None, config: None, manifest: None }),
            linker: None,
        }),
    };
    assert_eq!(summary(&enabled).len(), 1);
}
