//! Candidate resolution, on recorded workspace metadata and on fixtures
//! built by hand.

use cargo_rapp::config::rapp_candidates;
use cargo_rapp::config::Config;
use cargo_rapp::config::Dependency;
use cargo_rapp::config::DependencyKind;
use cargo_rapp::config::Metadata;
use cargo_rapp::config::Package;
use cargo_rapp::config::Target;
use cargo_rapp::error::DiscoveryError;

fn text(s: &str) -> Vec<char> {
    s.chars().collect()
}

fn string_of(t: &[char]) -> String {
    t.iter().collect()
}

fn convert(meta: &cargo_metadata::Metadata) -> Metadata {
    Metadata {
        packages: meta
            .packages
            .iter()
            .map(|p| Package {
                name: text(p.name.as_ref()),
                targets: p
                    .targets
                    .iter()
                    .map(|t| Target { is_lib: t.is_lib() })
                    .collect(),
                dependencies: p
                    .dependencies
                    .iter()
                    .map(|d| Dependency {
                        name: text(&d.name),
                        kind: match d.kind {
                            cargo_metadata::DependencyKind::Normal => DependencyKind::Normal,
                            cargo_metadata::DependencyKind::Development => {
                                DependencyKind::Development
                            }
                            cargo_metadata::DependencyKind::Build => DependencyKind::Build,
                            _ => DependencyKind::Unknown,
                        },
                    })
                    .collect(),
            })
            .collect(),
        workspace_members: meta
            .workspace_members
            .iter()
            .map(|m| text(&m.repr))
            .collect(),
        target_directory: text(meta.target_directory.as_str()),
    }
}

fn lib_package(name: &str, deps: Vec<(&str, DependencyKind)>) -> Package {
    Package {
        name: text(name),
        targets: vec![Target { is_lib: true }],
        dependencies: deps
            .into_iter()
            .map(|(n, kind)| Dependency { name: text(n), kind })
            .collect(),
    }
}

fn workspace(packages: Vec<Package>) -> Metadata {
    Metadata {
        packages,
        workspace_members: vec![text("member 0.1.0 (path+file:///ws/member)")],
        target_directory: text("/ws/target"),
    }
}

#[test]
fn parse_metadata_1() {
    let deserialized: cargo_metadata::Metadata = serde_json::from_str(METADATA_1).unwrap();
    let rapp_candidates = rapp_candidates(&convert(&deserialized));
    assert_eq!(rapp_candidates.len(), 1);
}

#[test]
fn parse_metadata_2() {
    let deserialized: cargo_metadata::Metadata = serde_json::from_str(METADATA_2).unwrap();
    let rapp_candidates = rapp_candidates(&convert(&deserialized));
    assert_eq!(rapp_candidates.len(), 1);
}

#[test]
fn one_qualifying_unit_is_resolved() {
    let meta = workspace(vec![
        lib_package("foo", vec![("rapp", DependencyKind::Normal)]),
        lib_package("plain", vec![("serde", DependencyKind::Normal)]),
    ]);
    let config = Config::create(&meta, &text("/cache"), &text("/ws")).unwrap();
    assert_eq!(string_of(&config.name), "foo");
    assert_eq!(string_of(&config.target_dir), "/ws/target/debug/build/rapp_runner");
    assert_eq!(string_of(&config.scratch_dir), "/cache");
    assert_eq!(string_of(&config.app_dir), "/ws");
    assert!(!config.use_relative_paths);
    assert!(!config.rebuild);
}

#[test]
fn zero_qualifying_units_fail_with_no_candidate() {
    let meta = workspace(vec![lib_package("plain", vec![("serde", DependencyKind::Normal)])]);
    let err = Config::create(&meta, &text("/cache"), &text("/ws")).unwrap_err();
    match err {
        DiscoveryError::NoCandidate(dir) => assert_eq!(string_of(&dir), "/cache"),
        other => panic!("expected NoCandidate, got {:?}", other),
    }
}

#[test]
fn several_qualifying_units_fail_with_sorted_names() {
    let meta = workspace(vec![
        lib_package("foo", vec![("rapp", DependencyKind::Normal)]),
        lib_package("bar", vec![("rapp", DependencyKind::Normal)]),
        // the same name again, as duplicate graph entries produce it
        lib_package("foo", vec![("rapp", DependencyKind::Normal)]),
    ]);
    let err = Config::create(&meta, &text("/cache"), &text("/ws")).unwrap_err();
    match err {
        DiscoveryError::AmbiguousCandidates(names) => {
            let names: Vec<String> = names.iter().map(|n| string_of(n)).collect();
            assert_eq!(names, vec!["bar".to_string(), "foo".to_string()]);
        }
        other => panic!("expected AmbiguousCandidates, got {:?}", other),
    }
}

#[test]
fn non_library_targets_disqualify() {
    let mut p = lib_package("foo", vec![("rapp", DependencyKind::Normal)]);
    p.targets.push(Target { is_lib: false });
    let meta = workspace(vec![p]);
    let cands = rapp_candidates(&meta);
    assert!(cands.is_empty());
}

#[test]
fn the_reserved_wrapper_name_is_never_selected() {
    let meta = workspace(vec![lib_package("runner", vec![("rapp", DependencyKind::Normal)])]);
    let cands = rapp_candidates(&meta);
    assert!(cands.is_empty());
}

#[test]
fn dev_and_build_dependencies_do_not_qualify() {
    let meta = workspace(vec![
        lib_package("foo", vec![("rapp", DependencyKind::Development)]),
        lib_package("bar", vec![("rapp", DependencyKind::Build)]),
    ]);
    let cands = rapp_candidates(&meta);
    assert!(cands.is_empty());
}

#[test]
fn the_reduced_workflow_records_the_shared_target_directory() {
    let meta = workspace(vec![lib_package("foo", vec![("rapp", DependencyKind::Normal)])]);
    let config = cargo_rapp::show::create_and_save(&meta, &text("/tmp_dir")).unwrap();
    assert_eq!(string_of(&config.name), "foo");
    assert_eq!(string_of(&config.target_dir), "/ws/target");
}

#[test]
fn an_empty_workspace_yields_no_candidates() {
    let mut meta = workspace(vec![lib_package("foo", vec![("rapp", DependencyKind::Normal)])]);
    meta.workspace_members.clear();
    let cands = rapp_candidates(&meta);
    assert!(cands.is_empty());
}

const METADATA_1: &str = r#"{
    "packages": [
        {
            "name": "my_rap",
            "version": "0.1.0",
            "id": "my_rap 0.1.0 (path+file:///Users/developer/Projects/my_rap/hello_app)",
            "license": null,
            "license_file": null,
            "description": null,
            "source": null,
            "dependencies": [
                {
                    "name": "rapp",
                    "source": "git+https://github.com/smassizzo/rapp.git",
                    "req": "*",
                    "kind": null,
                    "rename": null,
                    "optional": false,
                    "uses_default_features": true,
                    "features": [],
                    "target": null,
                    "registry": null
                }
            ],
            "targets": [
                {
                    "kind": [
                        "lib"
                    ],
                    "crate_types": [
                        "lib"
                    ],
                    "name": "my_rap",
                    "src_path": "/Users/developer/Projects/my_rap/hello_app/src/lib.rs",
                    "edition": "2021",
                    "doc": true,
                    "doctest": true,
                    "test": true
                }
            ],
            "features": {},
            "manifest_path": "/Users/developer/Projects/my_rap/hello_app/Cargo.toml",
            "metadata": null,
            "publish": null,
            "authors": [],
            "categories": [],
            "keywords": [],
            "readme": null,
            "repository": null,
            "homepage": null,
            "documentation": null,
            "edition": "2021",
            "links": null,
            "default_run": null,
            "rust_version": null
        },
        {
            "name": "rapp",
            "version": "0.1.0",
            "id": "rapp 0.1.0 (git+https://github.com/smassizzo/rapp.git#74bc0c52f6592913bec2809040351c574cc92a10)",
            "license": null,
            "license_file": null,
            "description": "A cargo tool to facilitate building mobile apps with rapp",
            "source": "git+https://github.com/smassizzo/rapp.git#74bc0c52f6592913bec2809040351c574cc92a10",
            "dependencies": [],
            "targets": [
                {
                    "kind": [
                        "lib"
                    ],
                    "crate_types": [
                        "lib"
                    ],
                    "name": "rapp",
                    "src_path": "/Users/developer/.cargo/git/checkouts/rapp-2dc35b25ab718a6e/74bc0c5/rapp/src/lib.rs",
                    "edition": "2021",
                    "doc": true,
                    "doctest": true,
                    "test": true
                }
            ],
            "features": {},
            "manifest_path": "/Users/developer/.cargo/git/checkouts/rapp-2dc35b25ab718a6e/74bc0c5/rapp/Cargo.toml",
            "metadata": null,
            "publish": null,
            "authors": [
                "Sebastiaan Massizzo"
            ],
            "categories": [],
            "keywords": [],
            "readme": null,
            "repository": null,
            "homepage": null,
            "documentation": null,
            "edition": "2021",
            "links": null,
            "default_run": null,
            "rust_version": "1.65"
        }
    ],
    "workspace_members": [
        "my_rap 0.1.0 (path+file:///Users/developer/Projects/my_rap/hello_app)"
    ],
    "resolve": {
        "nodes": [
            {
                "id": "my_rap 0.1.0 (path+file:///Users/developer/Projects/my_rap/hello_app)",
                "dependencies": [
                    "rapp 0.1.0 (git+https://github.com/smassizzo/rapp.git#74bc0c52f6592913bec2809040351c574cc92a10)"
                ],
                "deps": [
                    {
                        "name": "rapp",
                        "pkg": "rapp 0.1.0 (git+https://github.com/smassizzo/rapp.git#74bc0c52f6592913bec2809040351c574cc92a10)",
                        "dep_kinds": [
                            {
                                "kind": null,
                                "target": null
                            }
                        ]
                    }
                ],
                "features": []
            },
            {
                "id": "rapp 0.1.0 (git+https://github.com/smassizzo/rapp.git#74bc0c52f6592913bec2809040351c574cc92a10)",
                "dependencies": [],
                "deps": [],
                "features": []
            }
        ],
        "root": null
    },
    "target_directory": "/Users/developer/Projects/my_rap/target",
    "version": 1,
    "workspace_root": "/Users/developer/Projects/my_rap",
    "metadata": null
}"#;

const METADATA_2: &str = r#"{
    "packages": [
        {
            "name": "hello_app",
            "version": "0.1.0",
            "id": "hello_app 0.1.0 (path+file:///Users/developer/Projects/my_rap/hello_app)",
            "license": null,
            "license_file": null,
            "description": null,
            "source": null,
            "dependencies": [
                {
                    "name": "rapp",
                    "source": "git+https://github.com/smassizzo/rapp.git",
                    "req": "*",
                    "kind": null,
                    "rename": null,
                    "optional": false,
                    "uses_default_features": true,
                    "features": [],
                    "target": null,
                    "registry": null
                }
            ],
            "targets": [
                {
                    "kind": [
                        "lib"
                    ],
                    "crate_types": [
                        "lib"
                    ],
                    "name": "hello_app",
                    "src_path": "/Users/developer/Projects/my_rap/hello_app/src/lib.rs",
                    "edition": "2021",
                    "doc": true,
                    "doctest": true,
                    "test": true
                }
            ],
            "features": {},
            "manifest_path": "/Users/developer/Projects/my_rap/hello_app/Cargo.toml",
            "metadata": null,
            "publish": null,
            "authors": [],
            "categories": [],
            "keywords": [],
            "readme": null,
            "repository": null,
            "homepage": null,
            "documentation": null,
            "edition": "2021",
            "links": null,
            "default_run": null,
            "rust_version": null
        },
        {
            "name": "rapp",
            "version": "0.1.0",
            "id": "rapp 0.1.0 (git+https://github.com/smassizzo/rapp.git#c525e19a788ec99d384bac61486c39bfddc5c6d5)",
            "license": null,
            "license_file": null,
            "description": "A cargo tool to facilitate building mobile apps with rapp",
            "source": "git+https://github.com/smassizzo/rapp.git#c525e19a788ec99d384bac61486c39bfddc5c6d5",
            "dependencies": [],
            "targets": [
                {
                    "kind": [
                        "lib"
                    ],
                    "crate_types": [
                        "lib"
                    ],
                    "name": "rapp",
                    "src_path": "/Users/developer/.cargo/git/checkouts/rapp-2dc35b25ab718a6e/c525e19/rapp/src/lib.rs",
                    "edition": "2021",
                    "doc": true,
                    "doctest": true,
                    "test": true
                }
            ],
            "features": {},
            "manifest_path": "/Users/developer/.cargo/git/checkouts/rapp-2dc35b25ab718a6e/c525e19/rapp/Cargo.toml",
            "metadata": null,
            "publish": null,
            "authors": [
                "Sebastiaan Massizzo"
            ],
            "categories": [],
            "keywords": [],
            "readme": null,
            "repository": null,
            "homepage": null,
            "documentation": null,
            "edition": "2021",
            "links": null,
            "default_run": null,
            "rust_version": "1.65"
        }
    ],
    "workspace_members": [
        "hello_app 0.1.0 (path+file:///Users/developer/Projects/my_rap/hello_app)"
    ],
    "resolve": {
        "nodes": [
            {
                "id": "hello_app 0.1.0 (path+file:///Users/developer/Projects/my_rap/hello_app)",
                "dependencies": [
                    "rapp 0.1.0 (git+https://github.com/smassizzo/rapp.git#c525e19a788ec99d384bac61486c39bfddc5c6d5)"
                ],
                "deps": [
                    {
                        "name": "rapp",
                        "pkg": "rapp 0.1.0 (git+https://github.com/smassizzo/rapp.git#c525e19a788ec99d384bac61486c39bfddc5c6d5)",
                        "dep_kinds": [
                            {
                                "kind": null,
                                "target": null
                            }
                        ]
                    }
                ],
                "features": []
            },
            {
                "id": "rapp 0.1.0 (git+https://github.com/smassizzo/rapp.git#c525e19a788ec99d384bac61486c39bfddc5c6d5)",
                "dependencies": [],
                "deps": [],
                "features": []
            }
        ],
        "root": null
    },
    "target_directory": "/Users/developer/Projects/my_rap/target",
    "version": 1,
    "workspace_root": "/Users/developer/Projects/my_rap",
    "metadata": null
}"#;
