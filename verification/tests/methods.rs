use dexompiler::dex::file::resolve;
use dexompiler::dex::{
    flatten, get_methods, CallNode, DexClass, DexError, DexFile, DexMethod, Instruction,
    InstructionError, Method, MethodRef, Opcode, ProtoRef, Signature,
};
use dexompiler::dex::order::Rank;
use regex::Regex;

fn sig(class: &str, name: &str, params: Option<&[&str]>, ret: &str) -> Signature {
    Signature {
        class_type: class.to_string(),
        method_name: name.to_string(),
        params: params.map(|p| p.iter().map(|s| s.to_string()).collect()),
        return_type: ret.to_string(),
    }
}

// the entry of the method table that resolves to `s`
fn entry(s: Signature) -> Option<MethodRef> {
    Some(MethodRef {
        class_type: Some(s.class_type),
        name: Some(s.method_name),
        proto: Some(ProtoRef {
            return_type: Some(s.return_type),
            params_off: if s.params.is_some() { 0x70 } else { 0 },
            params: s.params,
        }),
    })
}

fn method(name: &str, params: &[&str], code: Option<Vec<u16>>) -> DexMethod {
    DexMethod {
        name: name.to_string(),
        params: params.iter().map(|s| s.to_string()).collect(),
        return_type: "V".to_string(),
        code,
    }
}

fn hello_world() -> DexFile {
    let table = vec![
        entry(sig("LTestBasic;", "<init>", None, "V")),
        entry(sig("LTestBasic;", "main", Some(&["[Ljava/lang/String;"]), "V")),
        entry(sig("Ljava/io/PrintStream;", "println", Some(&["Ljava/lang/String;"]), "V")),
        entry(sig("Ljava/lang/Object;", "<init>", None, "V")),
    ];
    DexFile {
        classes: vec![DexClass {
            class_type: "LTestBasic;".to_string(),
            java_name: "TestBasic".to_string(),
            methods: vec![
                method("<init>", &[], Some(vec![0x1070, 0x0003, 0x0000, 0x000e])),
                method(
                    "main",
                    &["[Ljava/lang/String;"],
                    Some(vec![0x0062, 0x0000, 0x011a, 0x0001, 0x206e, 0x0002, 0x0010, 0x000e]),
                ),
            ],
        }],
        method_table: table,
    }
}

// invoke-static of the method at `index`, without arguments
fn call(index: u16) -> Vec<u16> {
    vec![0x0071, index, 0x0000]
}

fn call_graph() -> DexFile {
    // method table: 0 <init>, 1 a, 2 main, 3 x, 4 y, 5 z, 6 Object.<init>
    let names = ["<init>", "a", "main", "x", "y", "z"];
    let mut table: Vec<Option<MethodRef>> = names
        .iter()
        .map(|n| {
            entry(if *n == "main" {
                sig("LCallGraph;", n, Some(&["[Ljava/lang/String;"]), "V")
            } else {
                sig("LCallGraph;", n, None, "V")
            })
        })
        .collect();
    table.push(entry(sig("Ljava/lang/Object;", "<init>", None, "V")));
    let mut a = Vec::new();
    a.extend(call(5));
    a.extend(call(4));
    a.extend(call(3));
    a.push(0x000e);
    let mut main = call(1);
    main.push(0x000e);
    DexFile {
        classes: vec![DexClass {
            class_type: "LCallGraph;".to_string(),
            java_name: "CallGraph".to_string(),
            methods: vec![
                method("<init>", &[], Some(vec![0x1070, 0x0006, 0x0000, 0x000e])),
                method("main", &["[Ljava/lang/String;"], Some(main)),
                method("a", &[], Some(a)),
                method("x", &[], Some(vec![0x000e])),
                method("y", &[], Some(vec![0x000e])),
                method("z", &[], Some(vec![0x000e])),
            ],
        }],
        method_table: table,
    }
}

#[test]
fn test_hello_world() {
    let dex = hello_world();
    let methods = get_methods(&[dex], None).0;

    let init = &methods[0];
    assert_eq!(
        init.signature,
        Signature {
            class_type: "LTestBasic;".to_string(),
            method_name: "<init>".to_string(),
            params: None,
            return_type: "V".to_string()
        }
    );
    assert_eq!(
        init.insns,
        vec![
            Instruction {
                opcode: Opcode::InvokeDirect,
                m_idx: Some(3)
            },
            Instruction {
                opcode: Opcode::ReturnVoid,
                m_idx: None
            }
        ]
    );

    let main = &methods[1];
    assert_eq!(
        main.signature,
        Signature {
            class_type: "LTestBasic;".to_string(),
            method_name: "main".to_string(),
            params: Some(vec!["[Ljava/lang/String;".to_string()]),
            return_type: "V".to_string()
        }
    );
    assert_eq!(
        main.insns,
        vec![
            Instruction {
                opcode: Opcode::SgetObject,
                m_idx: None
            },
            Instruction {
                opcode: Opcode::ConstString,
                m_idx: None
            },
            Instruction {
                opcode: Opcode::InvokeVirtual,
                m_idx: Some(2)
            },
            Instruction {
                opcode: Opcode::ReturnVoid,
                m_idx: None
            }
        ]
    );
}

#[test]
fn test_call_graph() {
    let dex = call_graph();
    let methods = get_methods(&[dex], None).0;
    assert_eq!(
        methods[0].signature,
        Signature {
            class_type: "LCallGraph;".to_string(),
            method_name: "<init>".to_string(),
            params: None,
            return_type: "V".to_string()
        }
    );
    assert_eq!(
        methods[1].signature,
        Signature {
            class_type: "LCallGraph;".to_string(),
            method_name: "a".to_string(),
            params: None,
            return_type: "V".to_string()
        }
    );
    assert_eq!(
        methods[2].signature,
        Signature {
            class_type: "LCallGraph;".to_string(),
            method_name: "z".to_string(),
            params: None,
            return_type: "V".to_string()
        }
    );
    assert_eq!(
        methods[3].signature,
        Signature {
            class_type: "LCallGraph;".to_string(),
            method_name: "y".to_string(),
            params: None,
            return_type: "V".to_string()
        }
    );
    assert_eq!(
        methods[4].signature,
        Signature {
            class_type: "LCallGraph;".to_string(),
            method_name: "x".to_string(),
            params: None,
            return_type: "V".to_string()
        }
    );
    assert_eq!(
        methods[5].signature,
        Signature {
            class_type: "LCallGraph;".to_string(),
            method_name: "main".to_string(),
            params: Some(vec!["[Ljava/lang/String;".to_string()]),
            return_type: "V".to_string()
        }
    );
    assert_eq!(methods.len(), 6);
}

fn node(class: &str, name: &str, calls: &[(&str, &str)]) -> CallNode {
    CallNode {
        method: Method {
            signature: sig(class, name, None, "V"),
            insns: vec![Instruction { opcode: Opcode::ReturnVoid, m_idx: None }],
        },
        calls: calls.iter().map(|(c, n)| sig(c, n, None, "V")).collect(),
    }
}

fn names(methods: &[Method]) -> Vec<String> {
    methods
        .iter()
        .map(|m| format!("{}{}", m.signature.class_type, m.signature.method_name))
        .collect()
}

#[test]
fn flatten_is_the_same_for_any_order_of_the_nodes() {
    let build = |order: &[usize]| {
        let all = [
            ("Lb/B;", "run", vec![("La/A;", "go"), ("Lz/Z;", "end")]),
            ("La/A;", "go", vec![("Lz/Z;", "end"), ("Lq/Q;", "gone")]),
            ("Lz/Z;", "end", vec![]),
            ("Lm/M;", "mid", vec![("Lb/B;", "run")]),
        ];
        order
            .iter()
            .map(|&i| node(all[i].0, all[i].1, &all[i].2))
            .collect::<Vec<_>>()
    };
    let first = flatten(build(&[0, 1, 2, 3]), None);
    assert_eq!(names(&first), vec!["La/A;go", "Lz/Z;end", "Lb/B;run", "Lm/M;mid"]);
    for order in [[3, 2, 1, 0], [1, 3, 0, 2], [2, 0, 3, 1]] {
        assert_eq!(flatten(build(&order), None), first);
    }
}

#[test]
fn flatten_puts_the_classes_of_the_manifest_first() {
    let nodes = || {
        vec![
            node("La/Lib;", "help", &[]),
            node("Lcom/app/Main;", "onCreate", &[("Lcom/app/Util;", "load")]),
            node("Lcom/app/Util;", "load", &[]),
            node("Lb/Other;", "idle", &[]),
            node("Lcom/app/Svc;", "start", &[]),
        ]
    };
    let regexes = vec![Regex::new("com/app/Main").unwrap(), Regex::new("com/app/Svc").unwrap()];
    let out = flatten(nodes(), Some(regexes));
    assert_eq!(
        names(&out),
        vec![
            "Lcom/app/Main;onCreate",
            "Lcom/app/Util;load",
            "Lcom/app/Svc;start",
            "La/Lib;help",
            "Lb/Other;idle"
        ]
    );
    // without expressions, and with an empty list of them, the signatures decide alone
    let plain = vec![
        "La/Lib;help",
        "Lb/Other;idle",
        "Lcom/app/Main;onCreate",
        "Lcom/app/Util;load",
        "Lcom/app/Svc;start",
    ];
    assert_eq!(names(&flatten(nodes(), None)), plain);
    assert_eq!(names(&flatten(nodes(), Some(vec![]))), plain);
}

#[test]
fn flatten_keeps_the_last_of_two_nodes_with_one_signature() {
    let mut first = node("La/A;", "f", &[]);
    first.method.insns = vec![Instruction { opcode: Opcode::Nop, m_idx: None }];
    let second = node("La/A;", "f", &[]);
    let out = flatten(vec![first, second], None);
    assert_eq!(out.len(), 1);
    assert_eq!(out[0].insns[0].opcode, Opcode::ReturnVoid);
}

#[test]
fn flatten_ends_on_cycles_and_on_nothing() {
    assert!(flatten(vec![], None).is_empty());
    let out = flatten(
        vec![
            node("La;", "f", &[("La;", "g"), ("La;", "f")]),
            node("La;", "g", &[("La;", "f")]),
        ],
        None,
    );
    assert_eq!(names(&out), vec!["La;f", "La;g"]);
}

#[test]
fn failing_methods_are_left_out_and_reported() {
    let dex = DexFile {
        classes: vec![DexClass {
            class_type: "LBroken;".to_string(),
            java_name: "Broken".to_string(),
            methods: vec![
                method("bad", &[], Some(vec![0x003e])),
                method("short", &[], Some(vec![0x000e, 0x006e])),
                method("good", &[], Some(vec![0x000e])),
                method("abstract_one", &[], None),
            ],
        }],
        method_table: vec![],
    };
    let (methods, failures) = get_methods(&[dex], None);
    assert_eq!(names(&methods), vec!["LBroken;good"]);
    assert_eq!(
        failures,
        vec![
            DexError {
                class_name: "Broken".to_string(),
                method_name: "bad".to_string(),
                source: InstructionError::BadOpcode(0, 0x3e),
            },
            DexError {
                class_name: "Broken".to_string(),
                method_name: "short".to_string(),
                source: InstructionError::TooShort {
                    offset: 1,
                    opcode: Opcode::InvokeVirtual,
                    expected: 3,
                    actual: 1
                },
            },
        ]
    );
}

#[test]
fn unresolved_calls_are_skipped() {
    let dex = DexFile {
        classes: vec![DexClass {
            class_type: "LC;".to_string(),
            java_name: "C".to_string(),
            methods: vec![
                method("m", &[], Some(vec![0x0071, 0x0001, 0x0000, 0x0071, 0x0009, 0x0000, 0x0071, 0x0000, 0x0000, 0x000e])),
                method("n", &[], Some(vec![0x000e])),
            ],
        }],
        method_table: vec![entry(sig("LC;", "n", None, "V")), None],
    };
    let (nodes, failures) = dexompiler::dex::file::decode_methods(&[dex]);
    assert!(failures.is_empty());
    assert_eq!(nodes[0].calls, vec![sig("LC;", "n", None, "V")]);
    assert_eq!(nodes[0].method.insns.len(), 4);
    assert_eq!(nodes[0].method.insns[1].m_idx, Some(9));
}

#[test]
fn signatures_compare_like_their_derived_order() {
    let list = [
        sig("La;", "f", None, "V"),
        sig("La;", "f", None, "W"),
        sig("La;", "f", Some(&[]), "V"),
        sig("La;", "f", Some(&["I"]), "V"),
        sig("La;", "f", Some(&["I", "I"]), "V"),
        sig("La;", "f", Some(&["J"]), "A"),
        sig("La;", "fa", None, "V"),
        sig("La;", "g", None, "V"),
        sig("Lab;", "a", None, "V"),
        sig("L\u{e9};", "a", None, "V"),
        sig("L\u{4e2d};", "a", None, "V"),
    ];
    for (i, a) in list.iter().enumerate() {
        for (j, b) in list.iter().enumerate() {
            let expected = match a.cmp(b) {
                std::cmp::Ordering::Less => Rank::Before,
                std::cmp::Ordering::Equal => Rank::Same,
                std::cmp::Ordering::Greater => Rank::After,
            };
            assert_eq!(a.compare(b), expected, "{i} {j}");
            assert_eq!(i.cmp(&j), a.cmp(b));
        }
    }
    assert_eq!(list[3].duplicate(), list[3]);
    assert_eq!(
        Signature::new("La;", "f", Some(&["I".to_string()]), "V"),
        list[3]
    );
}

#[test]
fn a_method_reference_resolves_only_with_all_its_parts() {
    let whole = || MethodRef {
        class_type: Some("LC;".into()),
        name: Some("m".into()),
        proto: Some(ProtoRef {
            return_type: Some("I".into()),
            params_off: 8,
            params: Some(vec!["J".into(), "[B".into()]),
        }),
    };
    assert_eq!(resolve(&Some(whole())), Some(sig("LC;", "m", Some(&["J", "[B"]), "I")));
    assert_eq!(resolve(&None), None);
    let mut m = whole();
    m.class_type = None;
    assert_eq!(resolve(&Some(m)), None);
    let mut m = whole();
    m.name = None;
    assert_eq!(resolve(&Some(m)), None);
    let mut m = whole();
    m.proto = None;
    assert_eq!(resolve(&Some(m)), None);
    let mut m = whole();
    m.proto.as_mut().unwrap().return_type = None;
    assert_eq!(resolve(&Some(m)), None);
    // a list of parameters that could not be read
    let mut m = whole();
    m.proto.as_mut().unwrap().params = None;
    assert_eq!(resolve(&Some(m)), None);
    // at offset zero there are no parameters, whatever the list holds
    let mut m = whole();
    m.proto.as_mut().unwrap().params_off = 0;
    assert_eq!(resolve(&Some(m)), Some(sig("LC;", "m", None, "I")));
    let mut m = whole();
    m.proto.as_mut().unwrap().params_off = 0;
    m.proto.as_mut().unwrap().params = None;
    assert_eq!(resolve(&Some(m)), Some(sig("LC;", "m", None, "I")));
    // an empty list at another offset is an empty list
    let mut m = whole();
    m.proto.as_mut().unwrap().params = Some(vec![]);
    assert_eq!(resolve(&Some(m)), Some(sig("LC;", "m", Some(&[]), "I")));
}
