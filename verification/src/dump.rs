//! The metadata dump: from what was read out of the runtime (assemblies,
//! classes, methods and their native addresses) to the text of the dump file,
//! with addresses also given as IDA addresses and RVAs.

use vstd::prelude::*;
use crate::text::{dec, hex, push_dec, push_hex};

verus! {

/// The base address IDA loads the game module at.
pub const IDA_BASE: u64 = 0x1_8000_0000;

/// A method as read from the runtime.
pub struct DumpMethod {
    pub name: String,
    pub return_type: String,
    /// Parameter type names; `None` where the runtime gave no type.
    pub params: Vec<Option<String>>,
    /// Native code address; 0 when the method has no body.
    pub code: u64,
}

/// A class as read from the runtime.
pub struct DumpClass {
    pub name: String,
    pub namespace: String,
    pub methods: Vec<DumpMethod>,
}

/// An assembly's image as read from the runtime: its name, the class count it
/// reports, and the classes that could be read.
pub struct DumpAssembly {
    pub image_name: String,
    pub class_count: u64,
    pub classes: Vec<DumpClass>,
}

/// The dump: how many classes and methods it lists, and its text.
pub struct DumpReport {
    pub classes: usize,
    pub methods: usize,
    pub text: String,
}

/// The text of one parameter: its type name, or `?` when unknown.
pub open spec fn param_text(p: Option<String>) -> Seq<char> {
    match p {
        Some(s) => s@,
        None => seq!['?'],
    }
}

/// The parameter list, separated by `, `.
pub open spec fn params_text(ps: Seq<Option<String>>) -> Seq<char>
    decreases ps.len(),
{
    if ps.len() == 0 {
        Seq::empty()
    } else if ps.len() == 1 {
        param_text(ps[0])
    } else {
        params_text(ps.drop_last()) + ", "@ + param_text(ps.last())
    }
}

/// A native address as an offset into the module (wrapping).
pub open spec fn rva(code: u64, base: u64) -> u64 {
    code.wrapping_sub(base)
}

/// A native address as IDA shows it (wrapping).
pub open spec fn ida_address(code: u64, base: u64) -> u64 {
    IDA_BASE.wrapping_add(rva(code, base))
}

/// One method line: return type, name and parameters, then either
/// `@ (no body)` or its address, IDA address and RVA in hexadecimal.
pub open spec fn method_line(m: DumpMethod, base: u64) -> Seq<char> {
    "    "@ + m.return_type@ + " "@ + m.name@ + "("@ + params_text(m.params@) + ")"@ + (if m.code
        == 0 {
        "  @ (no body)\n"@
    } else {
        "  @ 0x"@ + hex(m.code as nat) + "  (IDA 0x"@ + hex(ida_address(m.code, base) as nat)
            + ", RVA 0x"@ + hex(rva(m.code, base) as nat) + ")\n"@
    })
}

/// The method lines of a class.
pub open spec fn methods_text(ms: Seq<DumpMethod>, base: u64) -> Seq<char>
    decreases ms.len(),
{
    if ms.len() == 0 {
        Seq::empty()
    } else {
        methods_text(ms.drop_last(), base) + method_line(ms.last(), base)
    }
}

/// A class name with its namespace in front, when it has one.
pub open spec fn full_name(c: DumpClass) -> Seq<char> {
    if c.namespace@.len() == 0 {
        c.name@
    } else {
        c.namespace@ + "."@ + c.name@
    }
}

/// One class block.
pub open spec fn class_block(c: DumpClass, base: u64) -> Seq<char> {
    "\nclass "@ + full_name(c) + " {\n"@ + methods_text(c.methods@, base) + "}\n"@
}

/// The class blocks of an image.
pub open spec fn classes_text(cs: Seq<DumpClass>, base: u64) -> Seq<char>
    decreases cs.len(),
{
    if cs.len() == 0 {
        Seq::empty()
    } else {
        classes_text(cs.drop_last(), base) + class_block(cs.last(), base)
    }
}

/// One image block: a header with the image name and its reported class
/// count, then its classes.
pub open spec fn assembly_block(a: DumpAssembly, base: u64) -> Seq<char> {
    "\n//==================== "@ + a.image_name@ + " ("@ + dec(a.class_count as nat)
        + " class) ====================\n"@ + classes_text(a.classes@, base)
}

/// The image blocks.
pub open spec fn assemblies_text(asms: Seq<DumpAssembly>, base: u64) -> Seq<char>
    decreases asms.len(),
{
    if asms.len() == 0 {
        Seq::empty()
    } else {
        assemblies_text(asms.drop_last(), base) + assembly_block(asms.last(), base)
    }
}

/// Number of classes listed.
pub open spec fn class_total(asms: Seq<DumpAssembly>) -> nat
    decreases asms.len(),
{
    if asms.len() == 0 {
        0
    } else {
        class_total(asms.drop_last()) + asms.last().classes@.len()
    }
}

/// Number of methods of the given classes.
pub open spec fn class_methods(cs: Seq<DumpClass>) -> nat
    decreases cs.len(),
{
    if cs.len() == 0 {
        0
    } else {
        class_methods(cs.drop_last()) + cs.last().methods@.len()
    }
}

/// Number of methods listed.
pub open spec fn method_total(asms: Seq<DumpAssembly>) -> nat
    decreases asms.len(),
{
    if asms.len() == 0 {
        0
    } else {
        method_total(asms.drop_last()) + class_methods(asms.last().classes@)
    }
}

/// The whole dump text: a header with the assembly count and the module
/// base, the image blocks, and a footer with the totals.
pub open spec fn dump_text(asm_count: u64, base: u64, asms: Seq<DumpAssembly>) -> Seq<char> {
    "// IL2CPP runtime dump — "@ + dec(asm_count as nat) + " assembly\n"@
        + "// module_base (ASLR) = 0x"@ + hex(base as nat)
        + "  | IDA preferred base = 0x180000000\n"@ + assemblies_text(asms, base) + "\n// Tổng: "@
        + dec(class_total(asms)) + " class, "@ + dec(method_total(asms)) + " method\n"@
}

proof fn lemma_class_total_prefix(asms: Seq<DumpAssembly>, k: int)
    requires
        0 <= k <= asms.len(),
    ensures
        class_total(asms.subrange(0, k)) <= class_total(asms),
        method_total(asms.subrange(0, k)) <= method_total(asms),
    decreases asms.len() - k,
{
    if k < asms.len() {
        lemma_class_total_prefix(asms, k + 1);
        let t = asms.subrange(0, k + 1);
        assert(t.drop_last() =~= asms.subrange(0, k));
    } else {
        assert(asms.subrange(0, k) =~= asms);
    }
}

proof fn lemma_class_methods_prefix(cs: Seq<DumpClass>, k: int)
    requires
        0 <= k <= cs.len(),
    ensures
        class_methods(cs.subrange(0, k)) <= class_methods(cs),
    decreases cs.len() - k,
{
    if k < cs.len() {
        lemma_class_methods_prefix(cs, k + 1);
        let t = cs.subrange(0, k + 1);
        assert(t.drop_last() =~= cs.subrange(0, k));
    } else {
        assert(cs.subrange(0, k) =~= cs);
    }
}

fn push_param(s: &mut String, p: &Option<String>)
    ensures
        final(s)@ == old(s)@ + param_text(*p),
{
    match p {
        Some(t) => {
            s.append(t.as_str());
        },
        None => {
            proof {
                reveal_strlit("?");
            }
            s.append("?");
        },
    }
}

fn push_params(s: &mut String, ps: &Vec<Option<String>>)
    ensures
        final(s)@ == old(s)@ + params_text(ps@),
{
    let ghost s0 = s@;
    let mut i: usize = 0;
    while i < ps.len()
        invariant
            i <= ps@.len(),
            s@ == s0 + params_text(ps@.subrange(0, i as int)),
        decreases ps@.len() - i,
    {
        let ghost t = ps@.subrange(0, i + 1);
        if i > 0 {
            s.append(", ");
        }
        push_param(s, &ps[i]);
        proof {
            assert(t.drop_last() =~= ps@.subrange(0, i as int));
            assert(t.last() == ps@[i as int]);
            if i == 0 {
                assert(params_text(ps@.subrange(0, 0)) =~= Seq::<char>::empty());
            }
        }
        i = i + 1;
        assert(s@ =~= s0 + params_text(ps@.subrange(0, i as int)));
    }
    assert(ps@.subrange(0, ps@.len() as int) =~= ps@);
}

fn push_method(s: &mut String, m: &DumpMethod, base: u64)
    ensures
        final(s)@ == old(s)@ + method_line(*m, base),
{
    let ghost s0 = s@;
    s.append("    ");
    s.append(m.return_type.as_str());
    s.append(" ");
    s.append(m.name.as_str());
    s.append("(");
    push_params(s, &m.params);
    s.append(")");
    if m.code == 0 {
        s.append("  @ (no body)\n");
    } else {
        let r = m.code.wrapping_sub(base);
        let ida = IDA_BASE.wrapping_add(r);
        s.append("  @ 0x");
        push_hex(s, m.code);
        s.append("  (IDA 0x");
        push_hex(s, ida);
        s.append(", RVA 0x");
        push_hex(s, r);
        s.append(")\n");
    }
    assert(s@ =~= s0 + method_line(*m, base));
}

fn push_class(s: &mut String, c: &DumpClass, base: u64)
    ensures
        final(s)@ == old(s)@ + class_block(*c, base),
{
    let ghost s0 = s@;
    s.append("\nclass ");
    if c.namespace.as_str().unicode_len() == 0 {
        s.append(c.name.as_str());
    } else {
        s.append(c.namespace.as_str());
        s.append(".");
        s.append(c.name.as_str());
    }
    s.append(" {\n");
    let ghost s1 = s@;
    let mut i: usize = 0;
    while i < c.methods.len()
        invariant
            i <= c.methods@.len(),
            s@ == s1 + methods_text(c.methods@.subrange(0, i as int), base),
        decreases c.methods@.len() - i,
    {
        push_method(s, &c.methods[i], base);
        proof {
            let t = c.methods@.subrange(0, i + 1);
            assert(t.drop_last() =~= c.methods@.subrange(0, i as int));
        }
        i = i + 1;
        assert(s@ =~= s1 + methods_text(c.methods@.subrange(0, i as int), base));
    }
    assert(c.methods@.subrange(0, c.methods@.len() as int) =~= c.methods@);
    s.append("}\n");
    assert(s@ =~= s0 + class_block(*c, base));
}

fn push_assembly(s: &mut String, a: &DumpAssembly, base: u64)
    ensures
        final(s)@ == old(s)@ + assembly_block(*a, base),
{
    let ghost s0 = s@;
    s.append("\n//==================== ");
    s.append(a.image_name.as_str());
    s.append(" (");
    push_dec(s, a.class_count);
    s.append(" class) ====================\n");
    let ghost s1 = s@;
    let mut i: usize = 0;
    while i < a.classes.len()
        invariant
            i <= a.classes@.len(),
            s@ == s1 + classes_text(a.classes@.subrange(0, i as int), base),
        decreases a.classes@.len() - i,
    {
        push_class(s, &a.classes[i], base);
        proof {
            let t = a.classes@.subrange(0, i + 1);
            assert(t.drop_last() =~= a.classes@.subrange(0, i as int));
        }
        i = i + 1;
        assert(s@ =~= s1 + classes_text(a.classes@.subrange(0, i as int), base));
    }
    assert(a.classes@.subrange(0, a.classes@.len() as int) =~= a.classes@);
    assert(s@ =~= s0 + assembly_block(*a, base));
}

fn count_methods(cs: &Vec<DumpClass>, limit: Ghost<nat>) -> (res: usize)
    requires
        class_methods(cs@) <= limit@,
        limit@ <= usize::MAX,
    ensures
        res == class_methods(cs@),
{
    let mut n: usize = 0;
    let mut i: usize = 0;
    while i < cs.len()
        invariant
            i <= cs@.len(),
            n == class_methods(cs@.subrange(0, i as int)),
            class_methods(cs@) <= limit@,
            limit@ <= usize::MAX,
        decreases cs@.len() - i,
    {
        proof {
            let t = cs@.subrange(0, i + 1);
            assert(t.drop_last() =~= cs@.subrange(0, i as int));
            lemma_class_methods_prefix(cs@, i + 1);
        }
        n = n + cs[i].methods.len();
        i = i + 1;
    }
    assert(cs@.subrange(0, cs@.len() as int) =~= cs@);
    n
}

/// Renders the dump of the images read from the runtime. `asm_count` is the
/// number of assemblies the runtime reported, `module_base` the address the
/// game module is loaded at.
pub fn render_dump(asm_count: u64, module_base: u64, asms: &Vec<DumpAssembly>) -> (res: DumpReport)
    requires
        class_total(asms@) <= usize::MAX,
        method_total(asms@) <= usize::MAX,
    ensures
        res.classes == class_total(asms@),
        res.methods == method_total(asms@),
        res.text@ == dump_text(asm_count, module_base, asms@),
{
    let mut s = String::new();
    s.append("// IL2CPP runtime dump — ");
    push_dec(&mut s, asm_count);
    s.append(" assembly\n");
    s.append("// module_base (ASLR) = 0x");
    push_hex(&mut s, module_base);
    s.append("  | IDA preferred base = 0x180000000\n");
    let ghost s1 = s@;
    let mut classes: usize = 0;
    let mut methods: usize = 0;
    let mut i: usize = 0;
    while i < asms.len()
        invariant
            i <= asms@.len(),
            s@ == s1 + assemblies_text(asms@.subrange(0, i as int), module_base),
            classes == class_total(asms@.subrange(0, i as int)),
            methods == method_total(asms@.subrange(0, i as int)),
            class_total(asms@) <= usize::MAX,
            method_total(asms@) <= usize::MAX,
        decreases asms@.len() - i,
    {
        let a = &asms[i];
        push_assembly(&mut s, a, module_base);
        proof {
            let t = asms@.subrange(0, i + 1);
            assert(t.drop_last() =~= asms@.subrange(0, i as int));
            lemma_class_total_prefix(asms@, i + 1);
        }
        classes = classes + a.classes.len();
        let n = count_methods(&a.classes, Ghost(class_methods(a.classes@)));
        methods = methods + n;
        i = i + 1;
        assert(s@ =~= s1 + assemblies_text(asms@.subrange(0, i as int), module_base));
    }
    assert(asms@.subrange(0, asms@.len() as int) =~= asms@);
    s.append("\n// Tổng: ");
    push_dec(&mut s, classes as u64);
    s.append(" class, ");
    push_dec(&mut s, methods as u64);
    s.append(" method\n");
    let ghost s_end = s@;
    assert(s_end =~= dump_text(asm_count, module_base, asms@));
    DumpReport { classes, methods, text: s }
}

} // verus!
