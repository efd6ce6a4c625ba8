use cargo_wasi::artifacts::{CargoBuild, CargoMessage, ManifestConfig, Profile};
use cargo_wasi::codec::process_module;
use cargo_wasi::pipeline::{encode_plain, plan_artifact, Transform};

fn module_bytes() -> Vec<u8> {
    let mut m = vec![0x00, 0x61, 0x73, 0x6d, 0x01, 0x00, 0x00, 0x00];
    m.extend_from_slice(&[0x01, 0x04, 0x01, 0x60, 0x00, 0x00]);
    m.extend_from_slice(&[0x03, 0x02, 0x01, 0x00]);
    m.extend_from_slice(&[0x0a, 0x04, 0x01, 0x02, 0x00, 0x0b]);
    let name = b"main";
    let mut sub = vec![0x01, 0x00, name.len() as u8];
    sub.extend_from_slice(name);
    let mut custom = vec![0x04];
    custom.extend_from_slice(b"name");
    custom.push(0x01);
    custom.push(sub.len() as u8);
    custom.extend_from_slice(&sub);
    m.push(0x00);
    m.push(custom.len() as u8);
    m.extend_from_slice(&custom);
    m
}

fn custom_section_names(bytes: &[u8]) -> Vec<String> {
    // Walks the top-level sections: an id byte, then a LEB128 size.
    let mut names = Vec::new();
    let mut i = 8;
    while i < bytes.len() {
        let id = bytes[i];
        i += 1;
        let mut size = 0usize;
        let mut shift = 0;
        loop {
            let b = bytes[i];
            i += 1;
            size |= ((b & 0x7f) as usize) << shift;
            shift += 7;
            if b & 0x80 == 0 {
                break;
            }
        }
        if id == 0 {
            let len = bytes[i] as usize;
            names.push(String::from_utf8_lossy(&bytes[i + 1..i + 1 + len]).into_owned());
        }
        i += size;
    }
    names
}

fn build_for(opt_level: &str, debuginfo: Option<u32>, manifest: ManifestConfig) -> CargoBuild {
    let msg = CargoMessage::CompilerArtifact {
        filenames: vec!["/p/target/wasm32-wasi/x/foo.wasm".to_string()],
        package_id: "foo 1.0.0 (path+file:///p)".to_string(),
        profile: Profile { opt_level: opt_level.to_string(), debuginfo, test: false },
        fresh: false,
    };
    CargoBuild::from_messages(vec![msg], manifest)
}

fn sections_after(build: &CargoBuild) -> Vec<String> {
    let plan = plan_artifact(build, &build.wasms[0], false);
    match plan.transform {
        Some(Transform::Plain { name_section, producers_section, .. }) => {
            let out = process_module(&module_bytes(), name_section, producers_section)
                .ok()
                .unwrap();
            custom_section_names(&out)
        }
        _ => panic!("expected the plain branch"),
    }
}

#[test]
fn producers_section() {
    let manifest = ManifestConfig { wasm_opt: None, wasm_name_section: None, wasm_producers_section: Some(false) };
    // Kept in a debug build ...
    let debug = build_for("0", Some(2), manifest);
    assert!(sections_after(&debug).contains(&"producers".to_string()));
    // ... and dropped in a release build without debug info.
    let release = build_for("3", None, manifest);
    assert!(!sections_after(&release).contains(&"producers".to_string()));
}

#[test]
fn name_section() {
    let manifest = ManifestConfig { wasm_opt: None, wasm_name_section: Some(false), wasm_producers_section: None };
    let debug = build_for("0", Some(2), manifest);
    assert!(sections_after(&debug).contains(&"name".to_string()));
    let release = build_for("3", None, manifest);
    assert!(!sections_after(&release).contains(&"name".to_string()));
}

#[test]
fn release_skip_wasm_opt() {
    let manifest = ManifestConfig { wasm_opt: Some(false), wasm_name_section: None, wasm_producers_section: None };
    let release = build_for("3", None, manifest);
    assert!(!release.enable_wasm_opt(&release.wasms[0].profile));
    let plan = plan_artifact(&release, &release.wasms[0], false);
    assert!(matches!(plan.transform, Some(Transform::Plain { optimize: false, .. })));
}

#[test]
fn skip_wasm_opt_if_debug() {
    let release = build_for("3", Some(1), ManifestConfig::unset());
    assert!(!release.enable_wasm_opt(&release.wasms[0].profile));
    let plan = plan_artifact(&release, &release.wasms[0], false);
    assert!(matches!(plan.transform, Some(Transform::Plain { optimize: false, name_section: true, producers_section: true })));
}

#[test]
fn plain_branch_encodes_with_the_planned_sections() {
    let manifest = ManifestConfig { wasm_opt: Some(false), wasm_name_section: Some(false), wasm_producers_section: None };
    let release = build_for("3", None, manifest);
    let plan = plan_artifact(&release, &release.wasms[0], false);
    let t = plan.transform.unwrap();
    let out = encode_plain(&t, &module_bytes()).ok().unwrap();
    assert_eq!(out, process_module(&module_bytes(), false, true).ok().unwrap());
    assert_eq!(out, encode_plain(&t, &module_bytes()).ok().unwrap());
    let names = custom_section_names(&out);
    assert!(!names.contains(&"name".to_string()));
    assert!(names.contains(&"producers".to_string()));
    assert!(encode_plain(&t, b"\0asm").is_err());
}
