use darksaber::dump::{render_dump, DumpAssembly, DumpClass, DumpMethod};

#[test]
fn dump_text_and_counts() {
    let m1 = DumpMethod {
        name: "TakeDamage".into(),
        return_type: "System.Void".into(),
        params: vec![Some("System.Int32".into())],
        code: 0x7ff6_0001_2340,
    };
    let m2 = DumpMethod {
        name: "Setup".into(),
        return_type: "System.Void".into(),
        params: vec![Some("System.Int32".into()), None],
        code: 0,
    };
    let c1 = DumpClass {
        name: "PlayerController".into(),
        namespace: "Controller.PlayerController".into(),
        methods: vec![m1, m2],
    };
    let c2 = DumpClass { name: "EnemyManager".into(), namespace: "".into(), methods: vec![] };
    let a = DumpAssembly { image_name: "Assembly-CSharp.dll".into(), class_count: 3, classes: vec![c1, c2] };
    let r = render_dump(2, 0x7ff6_0000_0000, &vec![a]);
    assert_eq!(r.classes, 2);
    assert_eq!(r.methods, 2);
    let expected = [
        "// IL2CPP runtime dump — 2 assembly\n",
        "// module_base (ASLR) = 0x7ff600000000  | IDA preferred base = 0x180000000\n",
        "\n//==================== Assembly-CSharp.dll (3 class) ====================\n",
        "\nclass Controller.PlayerController.PlayerController {\n",
        "    System.Void TakeDamage(System.Int32)  @ 0x7ff600012340  (IDA 0x180012340, RVA 0x12340)\n",
        "    System.Void Setup(System.Int32, ?)  @ (no body)\n",
        "}\n",
        "\nclass EnemyManager {\n",
        "}\n",
        "\n// Tổng: 2 class, 2 method\n",
    ]
    .concat();
    assert_eq!(r.text, expected);
}

#[test]
fn dump_of_nothing() {
    let r = render_dump(0, 0x10, &vec![]);
    assert_eq!((r.classes, r.methods), (0, 0));
    assert_eq!(
        r.text,
        "// IL2CPP runtime dump — 0 assembly\n// module_base (ASLR) = 0x10  | IDA preferred base = 0x180000000\n\n// Tổng: 0 class, 0 method\n"
    );
}

#[test]
fn dump_address_below_base_wraps() {
    let m = DumpMethod { name: "F".into(), return_type: "R".into(), params: vec![], code: 0x5 };
    let c = DumpClass { name: "C".into(), namespace: "N".into(), methods: vec![m] };
    let a = DumpAssembly { image_name: "I".into(), class_count: 1, classes: vec![c] };
    let r = render_dump(1, 0x10, &vec![a]);
    let rva = 0x5u64.wrapping_sub(0x10);
    let ida = 0x1_8000_0000u64.wrapping_add(rva);
    assert!(r.text.contains(&format!("    R F()  @ 0x5  (IDA 0x{:x}, RVA 0x{:x})\n", ida, rva)));
}
