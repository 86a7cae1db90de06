use dexompiler::apk::{component_regexes, entry_kind, is_dex, patterns, EntryKind};
use dexompiler::dex::{Instruction, Method, Opcode, Signature};
use dexompiler::manifest::{
    parse, Component, IntentFilter, Manifest, ManifestParseModel, Metadata, XmlElement, XmlNode,
};
use dexompiler::{Apk, CompactApk};

fn element(tag: &str, attributes: &[(&str, &str)], children: Vec<XmlNode>) -> XmlNode {
    XmlNode::Element(XmlElement {
        tag: tag.to_string(),
        attributes: attributes
            .iter()
            .map(|(k, v)| (k.to_string(), v.to_string()))
            .collect(),
        children,
    })
}

fn permission(name: &str) -> XmlNode {
    element("uses-permission", &[("android:name", name)], vec![])
}

fn named(tag: &str, name: &str, children: Vec<XmlNode>) -> XmlNode {
    element(tag, &[("android:name", name)], children)
}

fn action(name: &str) -> XmlNode {
    named("intent-filter", "", vec![named("action", name, vec![]), named("category", "x", vec![])])
}

fn plain(name: &str) -> Component {
    Component { name: name.into(), permission: None, intent_filters: vec![], metadata: None }
}

fn texts(list: &[&str]) -> Vec<String> {
    list.iter().map(|s| s.to_string()).collect()
}

fn document_a() -> XmlNode {
    element(
        "manifest",
        &[("xmlns:android", "http://schemas.android.com/apk/res/android"), ("package", "com.test.dexompiler")],
        vec![
            permission("android.permission.INTERNET"),
            permission("android.permission.FOREGROUND_SERVICE"),
            permission("com.vendor.permission.OTHER"),
            XmlNode::Cdata("text".to_string()),
            element(
                "application",
                &[("android:label", "test")],
                vec![
                    named("activity", "com.test.TestActivity", vec![]),
                    named("service", "com.test.TestService", vec![]),
                    named("receiver", "com.test.TestReceiver", vec![]),
                    named(
                        "provider",
                        "com.test.TestProvider",
                        vec![named("meta-data", "android.support.FILE_PROVIDER_PATHS", vec![])],
                    ),
                    named("uses-library", "org.apache.http.legacy", vec![]),
                ],
            ),
        ],
    )
}

#[test]
fn mod_test_parse_a() {
    let manifest = parse(Some(&document_a())).unwrap();
    assert_eq!(manifest.package, Some("com.test.dexompiler".into()));
    assert_eq!(manifest.permissions, texts(&["INTERNET", "FOREGROUND_SERVICE"]));
    assert_eq!(manifest.activities, vec![plain("com.test.TestActivity")]);
    assert_eq!(manifest.services, vec![plain("com.test.TestService")]);
    assert_eq!(manifest.receivers, vec![plain("com.test.TestReceiver")]);
    assert_eq!(
        manifest.providers,
        vec![Component {
            name: "com.test.TestProvider".into(),
            permission: None,
            intent_filters: vec![],
            metadata: Some(Metadata { name: "android.support.FILE_PROVIDER_PATHS".into() }),
        }]
    );
}

fn document_b() -> XmlNode {
    element(
        "manifest",
        &[("package", "com.hzmjdbvq.segiyntr")],
        vec![
            permission("android.permission.ACCESS_NETWORK_STATE"),
            permission("android.permission.SYSTEM_ALERT_WINDOW"),
            permission("android.permission.INTERNET"),
            permission("android.permission.SYSTEM_ALERT_WINDOW"),
            element(
                "application",
                &[],
                vec![
                    named(
                        "activity",
                        "com.win.first.MainActivity",
                        vec![action("android.intent.action.MAIN")],
                    ),
                    named("activity", "com.win.first.LogoActivity", vec![]),
                    named("activity", "com.win.first.WebActivity", vec![]),
                ],
            ),
        ],
    )
}

#[test]
fn mod_test_parse_b() {
    let manifest = parse(Some(&document_b())).unwrap();
    assert_eq!(manifest.package, Some("com.hzmjdbvq.segiyntr".into()));
    assert_eq!(
        manifest.permissions,
        texts(&["ACCESS_NETWORK_STATE", "SYSTEM_ALERT_WINDOW", "INTERNET"])
    );
    assert_eq!(
        manifest.activities,
        [
            "com.win.first.MainActivity",
            "com.win.first.LogoActivity",
            "com.win.first.WebActivity"
        ]
        .into_iter()
        .map(|s| Component {
            name: (*s).into(),
            permission: None,
            intent_filters: if s == "com.win.first.MainActivity" {
                vec![IntentFilter { action: "android.intent.action.MAIN".into() }]
            } else {
                vec![]
            },
            metadata: None,
        })
        .collect::<Vec<_>>()
    );
    assert_eq!(manifest.services.len(), 0);
    assert_eq!(manifest.receivers.len(), 0);
    assert_eq!(manifest.providers.len(), 0);
}

fn document_c() -> XmlNode {
    let p = "com.asnad.nightparty";
    let own = |n: &str| format!("{p}{n}");
    element(
        "manifest",
        &[("package", p)],
        vec![
            permission("android.permission.INTERNET"),
            permission("android.permission.RECEIVE_SMS"),
            permission("android.permission.READ_PHONE_STATE"),
            permission("android.permission.READ_SMS"),
            permission("android.permission.FOREGROUND_SERVICE"),
            permission("android.permission.POST_NOTIFICATIONS"),
            permission("android.permission.WRITE_EXTERNAL_STORAGE"),
            permission("android.permission.ACCESS_NETWORK_STATE"),
            element(
                "application",
                &[],
                vec![
                    named("activity", &own(".Last2"), vec![]),
                    named("activity", &own(".LastPage"), vec![]),
                    named(
                        "activity",
                        &own(".SplashActivity"),
                        vec![action("android.intent.action.MAIN")],
                    ),
                    named("activity", &own(".MainActivity"), vec![]),
                    named("service", &own(".SmsSerivce"), vec![]),
                    element(
                        "receiver",
                        &[
                            ("android:name", &own(".SmsReceiver")),
                            ("android:permission", "android.permission.BROADCAST_SMS"),
                        ],
                        vec![action("android.provider.Telephony.SMS_RECEIVED")],
                    ),
                    named("activity", "com.google.android.gms.common.api.GoogleApiActivity", vec![]),
                    named(
                        "service",
                        "com.google.firebase.components.ComponentDiscoveryService",
                        vec![
                            named("meta-data", "com.google.firebase.components:first", vec![]),
                            named(
                                "meta-data",
                                "com.google.firebase.components:com.google.firebase.database.DatabaseRegistrar",
                                vec![],
                            ),
                        ],
                    ),
                    named("provider", "com.google.firebase.provider.FirebaseInitProvider", vec![]),
                    named(
                        "provider",
                        "androidx.startup.InitializationProvider",
                        vec![named(
                            "meta-data",
                            "androidx.profileinstaller.ProfileInstallerInitializer",
                            vec![],
                        )],
                    ),
                    element(
                        "receiver",
                        &[
                            ("android:name", "androidx.profileinstaller.ProfileInstallReceiver"),
                            ("android:permission", "android.permission.DUMP"),
                        ],
                        vec![
                            action("androidx.profileinstaller.action.INSTALL_PROFILE"),
                            action("androidx.profileinstaller.action.SKIP_FILE"),
                            action("androidx.profileinstaller.action.SAVE_PROFILE"),
                            action("androidx.profileinstaller.action.BENCHMARK_OPERATION"),
                        ],
                    ),
                ],
            ),
        ],
    )
}

#[test]
fn mod_test_parse_c() {
    let manifest = parse(Some(&document_c())).unwrap();
    assert_eq!(manifest.package, Some("com.asnad.nightparty".into()));
    assert_eq!(
        manifest.permissions,
        texts(&[
            "INTERNET",
            "RECEIVE_SMS",
            "READ_PHONE_STATE",
            "READ_SMS",
            "FOREGROUND_SERVICE",
            "POST_NOTIFICATIONS",
            "WRITE_EXTERNAL_STORAGE",
            "ACCESS_NETWORK_STATE"
        ])
    );
    assert_eq!(
        manifest.activities,
        [
            ".Last2",
            ".LastPage",
            ".SplashActivity",
            ".MainActivity",
            "com.google.android.gms.common.api.GoogleApiActivity"
        ]
        .into_iter()
        .map(|s| Component {
            name: s.into(),
            permission: None,
            intent_filters: if s == ".SplashActivity" {
                vec![IntentFilter { action: "android.intent.action.MAIN".into() }]
            } else {
                vec![]
            },
            metadata: None,
        })
        .collect::<Vec<_>>()
    );
    assert_eq!(
        manifest.services,
        [".SmsSerivce", "com.google.firebase.components.ComponentDiscoveryService"]
            .into_iter()
            .map(|s| Component {
                name: s.into(),
                permission: None,
                intent_filters: vec![],
                metadata: if s == "com.google.firebase.components.ComponentDiscoveryService" {
                    Some(Metadata {
                        name: "com.google.firebase.components:com.google.firebase.database.DatabaseRegistrar"
                            .into(),
                    })
                } else {
                    None
                },
            })
            .collect::<Vec<_>>()
    );
    assert_eq!(
        manifest.receivers,
        vec![
            Component {
                name: ".SmsReceiver".into(),
                permission: Some("android.permission.BROADCAST_SMS".into()),
                intent_filters: vec![IntentFilter {
                    action: "android.provider.Telephony.SMS_RECEIVED".into(),
                }],
                metadata: None,
            },
            Component {
                name: "androidx.profileinstaller.ProfileInstallReceiver".into(),
                permission: Some("android.permission.DUMP".into()),
                intent_filters: vec![
                    IntentFilter { action: "androidx.profileinstaller.action.INSTALL_PROFILE".into() },
                    IntentFilter { action: "androidx.profileinstaller.action.SKIP_FILE".into() },
                    IntentFilter { action: "androidx.profileinstaller.action.SAVE_PROFILE".into() },
                    IntentFilter {
                        action: "androidx.profileinstaller.action.BENCHMARK_OPERATION".into()
                    }
                ],
                metadata: None,
            },
        ]
    );
    assert_eq!(
        manifest.providers,
        ["com.google.firebase.provider.FirebaseInitProvider", "androidx.startup.InitializationProvider"]
            .into_iter()
            .map(|s| Component {
                name: (*s).into(),
                permission: None,
                intent_filters: vec![],
                metadata: if s == "androidx.startup.InitializationProvider" {
                    Some(Metadata {
                        name: "androidx.profileinstaller.ProfileInstallerInitializer".into(),
                    })
                } else {
                    None
                },
            })
            .collect::<Vec<_>>()
    );
}

#[test]
fn a_document_without_a_root_element_has_no_manifest() {
    assert_eq!(parse(None), None);
    assert_eq!(parse(Some(&XmlNode::Cdata("manifest".into()))), None);
    assert_eq!(parse(Some(&element("anything", &[], vec![]))), Some(Manifest::default()));
}

#[test]
fn names_are_shortened_by_the_package_only_at_their_start() {
    let document = |package: Option<&str>| {
        let attributes: Vec<(&str, &str)> = package.iter().map(|p| ("package", *p)).collect();
        element(
            "manifest",
            &attributes,
            vec![element(
                "application",
                &[],
                vec![
                    named("activity", "com.app.Main", vec![]),
                    named("activity", "com.app", vec![]),
                    named("activity", "org.com.app.Main", vec![]),
                    named("activity", "com.apple.Main", vec![]),
                    element("activity", &[], vec![]),
                ],
            )],
        )
    };
    let names = |m: Manifest| m.activities.into_iter().map(|c| c.name).collect::<Vec<_>>();
    assert_eq!(
        names(parse(Some(&document(Some("com.app")))).unwrap()),
        texts(&[".Main", "", "org.com.app.Main", "le.Main", ""])
    );
    assert_eq!(
        names(parse(Some(&document(None))).unwrap()),
        texts(&["com.app.Main", "com.app", "org.com.app.Main", "com.apple.Main", ""])
    );
}

#[test]
fn the_first_attribute_and_the_first_action_count() {
    let e = XmlElement {
        tag: "intent-filter".into(),
        attributes: vec![("a".into(), "1".into()), ("b".into(), "2".into()), ("a".into(), "3".into())],
        children: vec![
            named("data", "d", vec![]),
            element("action", &[], vec![]),
            named("action", "first", vec![]),
            named("action", "second", vec![]),
        ],
    };
    assert_eq!(e.attribute("a"), Some(&"1".to_string()));
    assert_eq!(e.attribute("b"), Some(&"2".to_string()));
    assert_eq!(e.attribute("c"), None);
    assert!(e.has_tag("intent-filter") && !e.has_tag("intent"));
    assert_eq!(IntentFilter::from_element(&e), IntentFilter { action: "first".into() });
    assert_eq!(Metadata::from_element(&e), Metadata { name: "".into() });
    let empty = XmlElement { tag: "intent-filter".into(), attributes: vec![], children: vec![] };
    assert_eq!(IntentFilter::from_element(&empty), IntentFilter::default());
}

#[test]
fn permissions_alone() {
    let model = ManifestParseModel::from_document(Some(&document_a()));
    assert_eq!(model.permissions, texts(&["INTERNET", "FOREGROUND_SERVICE"]));
    let twice = element(
        "manifest",
        &[],
        vec![
            permission("android.permission.A"),
            permission("android.permission.A"),
            permission("android.permission."),
            permission("android.permission"),
        ],
    );
    let model = ManifestParseModel::from_document(Some(&twice));
    assert_eq!(model.permissions, texts(&["A", "A", ""]));
    assert_eq!(parse(Some(&twice)).unwrap().permissions, texts(&["A", ""]));
    assert_eq!(ManifestParseModel::from_document(None), ManifestParseModel::default());
}

#[test]
fn component_names_become_expressions() {
    let manifest = parse(Some(&document_c())).unwrap();
    let list = patterns(&manifest);
    assert_eq!(list.len(), 11);
    assert_eq!(list[0], "/Last2");
    assert_eq!(list[4], "com/google/android/gms/common/api/GoogleApiActivity");
    assert_eq!(list[5], "/SmsSerivce");
    assert_eq!(list[7], "/SmsReceiver");
    assert_eq!(list[10], "androidx/startup/InitializationProvider");
    let regexes = component_regexes(&manifest).unwrap();
    let sources: Vec<&str> = regexes.iter().map(|r| r.as_str()).collect();
    assert_eq!(sources, list.iter().map(|s| s.as_str()).collect::<Vec<_>>());
    assert!(regexes[0].is_match("Lcom/asnad/nightparty/Last2;"));
    assert!(!regexes[0].is_match("Lcom/asnad/nightparty/Last;"));
}

#[test]
fn one_bad_name_discards_all_expressions() {
    let document = element(
        "manifest",
        &[],
        vec![element(
            "application",
            &[],
            vec![named("activity", "com.app.Main", vec![]), named("service", "com.app.(Svc", vec![])],
        )],
    );
    let manifest = parse(Some(&document)).unwrap();
    assert!(component_regexes(&manifest).is_none());
    assert_eq!(component_regexes(&Manifest::default()).map(|l| l.len()), Some(0));
}

#[test]
fn the_magic_of_dex_files() {
    let mut bytes = vec![0x64, 0x65, 0x78, 0x0a, 0x30, 0x33, 0x35, 0x00, 0x12];
    for version in 0x35..=0x39 {
        bytes[6] = version;
        assert!(is_dex(&bytes));
        assert!(is_dex(&bytes[..8]));
        assert!(!is_dex(&bytes[..7]));
        assert!(!is_dex(&bytes[1..]));
    }
    for version in [0x34, 0x3a, 0x00] {
        bytes[6] = version;
        assert!(!is_dex(&bytes));
    }
    bytes[6] = 0x35;
    for at in [0, 1, 2, 3, 4, 5, 7] {
        let mut other = bytes.clone();
        other[at] ^= 1;
        assert!(!is_dex(&other));
    }
    assert!(!is_dex(&[]));
    assert_eq!(entry_kind("classes.dex", &bytes), EntryKind::Dex);
    assert_eq!(entry_kind("anything", &bytes), EntryKind::Dex);
    assert_eq!(entry_kind("AndroidManifest.xml", &bytes), EntryKind::Manifest);
    assert_eq!(entry_kind("res/AndroidManifest.xml", &[3, 0]), EntryKind::Other);
    assert_eq!(entry_kind("classes.dex", &[0x64, 0x65, 0x78]), EntryKind::Other);
}

#[test]
fn compact_form_of_an_apk() {
    let method = |class: &str, name: &str, ops: &[Opcode]| Method {
        signature: Signature {
            class_type: class.into(),
            method_name: name.into(),
            params: Some(vec!["I".into()]),
            return_type: "V".into(),
        },
        insns: ops.iter().map(|op| Instruction { opcode: *op, m_idx: Some(1) }).collect(),
    };
    let apk = Apk {
        manifest: Some(Manifest { package: Some("p".into()), ..Manifest::default() }),
        methods: vec![
            method("La/B;", "main", &[Opcode::SgetObject, Opcode::ConstString, Opcode::InvokeVirtual, Opcode::ReturnVoid]),
            method("La/B;", "<init>", &[]),
            method("Lc;", "x", &[Opcode::ConstMethodType, Opcode::Nop]),
        ],
    };
    let compact: CompactApk = apk.to_compact();
    assert_eq!(compact.manifest.unwrap().package, Some("p".to_string()));
    let got: Vec<(String, Vec<u8>)> =
        compact.methods.into_iter().map(|m| (m.signature, m.insns)).collect();
    assert_eq!(
        got,
        vec![
            ("La/B;main".to_string(), vec![0x62, 0x1a, 0x6e, 0x0e]),
            ("La/B;<init>".to_string(), vec![]),
            ("Lc;x".to_string(), vec![0xff, 0x00]),
        ]
    );
}

#[test]
fn assembling_an_apk() {
    let class = |class_type: &str, names: &[&str]| dexompiler::dex::DexClass {
        class_type: class_type.into(),
        java_name: class_type.into(),
        methods: names
            .iter()
            .map(|n| dexompiler::dex::DexMethod {
                name: n.to_string(),
                params: vec![],
                return_type: "V".into(),
                code: Some(if *n == "broken" { vec![0x0073] } else { vec![0x000e] }),
            })
            .collect(),
    };
    let files = vec![
        dexompiler::dex::DexFile {
            classes: vec![class("La/First;", &["f"]), class("Lcom/app/Main;", &["run", "broken"])],
            method_table: vec![],
        },
        dexompiler::dex::DexFile {
            classes: vec![class("Lb/Second;", &["g"]), class("Lcom/app/Other;", &["h"])],
            method_table: vec![],
        },
    ];
    let document = element(
        "manifest",
        &[("package", "com.app")],
        vec![element("application", &[], vec![named("activity", "com.app.Main", vec![])])],
    );
    let order = |apk: &Apk| -> Vec<String> {
        apk.methods.iter().map(|m| m.signature.class_type.clone()).collect()
    };
    let (apk, failures) = Apk::assemble(parse(Some(&document)), &files);
    // the name of the component lost its package and matches every class with `/Main`
    assert_eq!(apk.manifest.as_ref().unwrap().activities[0].name, ".Main");
    assert_eq!(order(&apk), texts(&["Lcom/app/Main;", "La/First;", "Lb/Second;", "Lcom/app/Other;"]));
    assert_eq!(failures.len(), 1);
    assert_eq!(failures[0].method_name, "broken");
    let (apk, _) = Apk::assemble(None, &files);
    assert_eq!(order(&apk), texts(&["La/First;", "Lb/Second;", "Lcom/app/Main;", "Lcom/app/Other;"]));
}

fn names(components: &[Component]) -> Vec<String> {
    components.iter().map(|c| c.name.clone()).collect()
}

#[test]
fn manifest_test_parse_a() {
    let manifest = parse(Some(&document_a())).unwrap();
    assert_eq!(manifest.package, Some("com.test.dexompiler".to_string()));
    assert_eq!(
        manifest.permissions,
        vec!["INTERNET".to_string(), "FOREGROUND_SERVICE".to_string()]
    );
    assert_eq!(names(&manifest.activities), vec!["com.test.TestActivity".to_string()]);
    assert_eq!(names(&manifest.services), vec!["com.test.TestService".to_string()]);
    assert_eq!(names(&manifest.receivers), vec!["com.test.TestReceiver".to_string()]);
    assert_eq!(names(&manifest.providers), vec!["com.test.TestProvider".to_string()]);
}

#[test]
fn manifest_test_parse_b() {
    let manifest = parse(Some(&document_b())).unwrap();
    assert_eq!(manifest.package, Some("com.hzmjdbvq.segiyntr".to_string()));
    assert_eq!(
        manifest.permissions,
        vec![
            "ACCESS_NETWORK_STATE".to_string(),
            "SYSTEM_ALERT_WINDOW".to_string(),
            "INTERNET".to_string()
        ]
    );
    assert_eq!(
        names(&manifest.activities),
        vec![
            "com.win.first.MainActivity".to_string(),
            "com.win.first.LogoActivity".to_string(),
            "com.win.first.WebActivity".to_string()
        ]
    );
    assert_eq!(manifest.services.len(), 0);
    assert_eq!(manifest.receivers.len(), 0);
    assert_eq!(manifest.providers.len(), 0);
}

#[test]
fn manifest_test_parse_c() {
    let manifest = parse(Some(&document_c())).unwrap();
    assert_eq!(manifest.package, Some("com.asnad.nightparty".to_string()));
    assert_eq!(
        manifest.permissions,
        vec![
            "INTERNET".to_string(),
            "RECEIVE_SMS".to_string(),
            "READ_PHONE_STATE".to_string(),
            "READ_SMS".to_string(),
            "FOREGROUND_SERVICE".to_string(),
            "POST_NOTIFICATIONS".to_string(),
            "WRITE_EXTERNAL_STORAGE".to_string(),
            "ACCESS_NETWORK_STATE".to_string()
        ]
    );
    assert_eq!(
        names(&manifest.activities),
        vec![
            ".Last2".to_string(),
            ".LastPage".to_string(),
            ".SplashActivity".to_string(),
            ".MainActivity".to_string(),
            "com.google.android.gms.common.api.GoogleApiActivity".to_string(),
        ]
    );
    assert_eq!(
        names(&manifest.services),
        vec![
            ".SmsSerivce".to_string(),
            "com.google.firebase.components.ComponentDiscoveryService".to_string()
        ]
    );
    assert_eq!(
        names(&manifest.receivers),
        vec![
            ".SmsReceiver".to_string(),
            "androidx.profileinstaller.ProfileInstallReceiver".to_string()
        ]
    );
    assert_eq!(
        names(&manifest.providers),
        vec![
            "com.google.firebase.provider.FirebaseInitProvider".to_string(),
            "androidx.startup.InitializationProvider".to_string()
        ]
    );
}
