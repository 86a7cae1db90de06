//! The contents of a DEX file as far as the call graph needs them, and the
//! decoding of its methods into call-graph nodes.

use vstd::prelude::*;
use super::errors::{DexError, DexErrorView};
use super::flatten::{CallNode, CallNodeView};
use super::instruction::{decode_compact, Instruction};
use super::method::{strings, Method, MethodView, Signature, SignatureView};
use crate::instruction::error::InstructionError;

verus! {

/// A method of a class: its name, the descriptors of its parameters and of
/// its return type, and the code units of its body if it has one.
#[derive(Debug, Clone, PartialEq, Eq)]
pub struct DexMethod {
    pub name: String,
    pub params: Vec<String>,
    pub return_type: String,
    pub code: Option<Vec<u16>>,
}

/// A class: its type descriptor, its name as Java writes it, and its
/// methods, the direct ones before the virtual ones.
#[derive(Debug, Clone, PartialEq, Eq)]
pub struct DexClass {
    pub class_type: String,
    pub java_name: String,
    pub methods: Vec<DexMethod>,
}

/// What the tables of a DEX file give for a method prototype. A lookup
/// that failed is `None`.
#[derive(Debug, Clone, PartialEq, Eq)]
pub struct ProtoRef {
    /// The descriptor of the return type.
    pub return_type: Option<String>,
    /// Where the list of the parameter types stands in the file; zero for a
    /// prototype without parameters.
    pub params_off: u32,
    /// The descriptors of the parameter types, looked up where `params_off`
    /// is not zero.
    pub params: Option<Vec<String>>,
}

/// What the tables of a DEX file give for an entry of the method table. A
/// lookup that failed is `None`.
#[derive(Debug, Clone, PartialEq, Eq)]
pub struct MethodRef {
    /// The descriptor of the class that defines the method.
    pub class_type: Option<String>,
    /// The name of the method.
    pub name: Option<String>,
    /// The prototype of the method.
    pub proto: Option<ProtoRef>,
}

/// A DEX file: its classes, and its method table with what the other
/// tables give for every entry. An entry that could not be read is `None`.
#[derive(Debug, Clone, PartialEq, Eq)]
pub struct DexFile {
    pub classes: Vec<DexClass>,
    pub method_table: Vec<Option<MethodRef>>,
}

/// The signature that an entry of the method table resolves to. Every
/// lookup must have succeeded. A prototype whose parameter list stands at
/// offset zero has no parameters; any other needs its list.
pub open spec fn signature_at(entry: Option<MethodRef>) -> Option<SignatureView> {
    match entry {
        Some(MethodRef { class_type: Some(class_type), name: Some(name), proto: Some(proto) }) => {
            match proto.return_type {
                Some(return_type) => {
                    if proto.params_off == 0 {
                        Some(
                            SignatureView {
                                class_type: class_type@,
                                method_name: name@,
                                params: None,
                                return_type: return_type@,
                            },
                        )
                    } else {
                        match proto.params {
                            Some(params) => Some(
                                SignatureView {
                                    class_type: class_type@,
                                    method_name: name@,
                                    params: Some(strings(params@)),
                                    return_type: return_type@,
                                },
                            ),
                            None => None,
                        }
                    }
                },
                None => None,
            }
        },
        _ => None,
    }
}

/// Resolves an entry of the method table to a signature.
pub fn resolve(entry: &Option<MethodRef>) -> (r: Option<Signature>)
    ensures
        match r {
            Some(s) => signature_at(*entry) == Some(s@),
            None => signature_at(*entry) is None,
        },
{
    let method = match entry {
        Some(method) => method,
        None => {
            return None;
        },
    };
    match (&method.class_type, &method.name, &method.proto) {
        (Some(class_type), Some(name), Some(proto)) => {
            let return_type = match &proto.return_type {
                Some(return_type) => return_type,
                None => {
                    return None;
                },
            };
            if proto.params_off == 0 {
                Some(Signature::new(class_type.as_str(), name.as_str(), None, return_type.as_str()))
            } else {
                match &proto.params {
                    Some(params) => Some(
                        Signature::new(
                            class_type.as_str(),
                            name.as_str(),
                            Some(params.as_slice()),
                            return_type.as_str(),
                        ),
                    ),
                    None => None,
                }
            }
        },
        _ => None,
    }
}

/// The compact instructions of `code` from `offset` to where the decoder
/// comes to the end of the code or to a payload table, or the first error
/// it meets on the way.
pub open spec fn decoded_from(code: Seq<u16>, offset: usize) -> Result<
    Seq<Instruction>,
    InstructionError,
>
    decreases code.len() - offset,
{
    match decode_compact(code, offset) {
        Ok(None) => Ok(Seq::empty()),
        Ok(Some((ins, n))) => {
            if 1 <= n && offset + n <= code.len() && offset + n <= usize::MAX {
                match decoded_from(code, (offset + n) as usize) {
                    Ok(rest) => Ok(seq![ins] + rest),
                    Err(e) => Err(e),
                }
            } else {
                Ok(seq![ins])
            }
        },
        Err(e) => Err(e),
    }
}

/// The signature that the entry `index` of the method table resolves to.
/// An index beyond the table resolves to nothing.
pub open spec fn resolved(table: Seq<Option<MethodRef>>, index: u16) -> Option<SignatureView> {
    if index < table.len() {
        signature_at(table[index as int])
    } else {
        None
    }
}

/// The signatures of the methods that the instructions call, in the order
/// of the instructions. A call whose method the table does not resolve is
/// left out.
pub open spec fn calls_of(insns: Seq<Instruction>, table: Seq<Option<MethodRef>>) -> Seq<
    SignatureView,
>
    decreases insns.len(),
{
    if insns.len() == 0 {
        Seq::empty()
    } else {
        let rest = calls_of(insns.drop_last(), table);
        match insns.last().m_idx {
            Some(index) => match resolved(table, index) {
                Some(s) => rest.push(s),
                None => rest,
            },
            None => rest,
        }
    }
}

/// The signature of a method of a class. A method without parameters has
/// no parameter list.
pub open spec fn signature_of(class_type: Seq<char>, method: DexMethod) -> SignatureView {
    SignatureView {
        class_type,
        method_name: method.name@,
        params: if method.params@.len() == 0 {
            None
        } else {
            Some(strings(method.params@))
        },
        return_type: method.return_type@,
    }
}

/// What decoding a method gives: nothing for a method without code, its
/// call-graph node, or the error with the names of the class and the method.
pub open spec fn decoded_method(class: DexClass, method: DexMethod, table: Seq<Option<MethodRef>>) -> Option<
    Result<CallNodeView, DexErrorView>,
> {
    match method.code {
        None => None,
        Some(code) => Some(
            match decoded_from(code@, 0) {
                Ok(insns) => Ok(
                    CallNodeView {
                        method: MethodView { signature: signature_of(class.class_type@, method), insns },
                        calls: calls_of(insns, table),
                    },
                ),
                Err(source) => Err(
                    DexErrorView {
                        class_name: class.java_name@,
                        method_name: method.name@,
                        source,
                    },
                ),
            },
        ),
    }
}

/// The nodes of the first `k` methods of a class that decode.
pub open spec fn class_nodes(class: DexClass, table: Seq<Option<MethodRef>>, k: nat) -> Seq<
    CallNodeView,
>
    decreases k,
{
    if k == 0 {
        Seq::empty()
    } else {
        let rest = class_nodes(class, table, (k - 1) as nat);
        match decoded_method(class, class.methods@[k - 1], table) {
            Some(Ok(node)) => rest.push(node),
            _ => rest,
        }
    }
}

/// The errors of the first `k` methods of a class that do not decode.
pub open spec fn class_failures(class: DexClass, table: Seq<Option<MethodRef>>, k: nat) -> Seq<
    DexErrorView,
>
    decreases k,
{
    if k == 0 {
        Seq::empty()
    } else {
        let rest = class_failures(class, table, (k - 1) as nat);
        match decoded_method(class, class.methods@[k - 1], table) {
            Some(Err(e)) => rest.push(e),
            _ => rest,
        }
    }
}

/// The nodes of the first `k` classes of a file.
pub open spec fn file_nodes(file: DexFile, k: nat) -> Seq<CallNodeView>
    decreases k,
{
    if k == 0 {
        Seq::empty()
    } else {
        file_nodes(file, (k - 1) as nat) + class_nodes(
            file.classes@[k - 1],
            file.method_table@,
            file.classes@[k - 1].methods@.len(),
        )
    }
}

/// The errors of the first `k` classes of a file.
pub open spec fn file_failures(file: DexFile, k: nat) -> Seq<DexErrorView>
    decreases k,
{
    if k == 0 {
        Seq::empty()
    } else {
        file_failures(file, (k - 1) as nat) + class_failures(
            file.classes@[k - 1],
            file.method_table@,
            file.classes@[k - 1].methods@.len(),
        )
    }
}

/// The nodes of the first `k` files.
pub open spec fn all_nodes(files: Seq<DexFile>, k: nat) -> Seq<CallNodeView>
    decreases k,
{
    if k == 0 {
        Seq::empty()
    } else {
        all_nodes(files, (k - 1) as nat) + file_nodes(files[k - 1], files[k - 1].classes@.len())
    }
}

/// The errors of the first `k` files.
pub open spec fn all_failures(files: Seq<DexFile>, k: nat) -> Seq<DexErrorView>
    decreases k,
{
    if k == 0 {
        Seq::empty()
    } else {
        all_failures(files, (k - 1) as nat) + file_failures(
            files[k - 1],
            files[k - 1].classes@.len(),
        )
    }
}

/// Decodes the code of a method into compact instructions.
pub fn decode_code(code: &[u16]) -> (r: Result<Vec<Instruction>, InstructionError>)
    ensures
        match decoded_from(code@, 0) {
            Ok(insns) => r is Ok && r->Ok_0@ == insns,
            Err(e) => r == Err::<Vec<Instruction>, InstructionError>(e),
        },
{
    let mut insns: Vec<Instruction> = Vec::new();
    let mut offset: usize = 0;
    let _ = code.len();
    loop
        invariant
            offset <= code@.len(),
            code@.len() <= usize::MAX,
            match decoded_from(code@, offset) {
                Ok(rest) => decoded_from(code@, 0) == Ok::<Seq<Instruction>, InstructionError>(
                    insns@ + rest,
                ),
                Err(e) => decoded_from(code@, 0) == Err::<Seq<Instruction>, InstructionError>(e),
            },
        decreases code@.len() - offset,
    {
        match Instruction::try_from_code(code, offset) {
            Ok(Some((ins, n))) => {
                proof {
                    let ghost_rest = decoded_from(code@, (offset + n) as usize);
                    if let Ok(rest) = ghost_rest {
                        assert(insns@ + (seq![ins] + rest) =~= insns@.push(ins) + rest);
                    }
                }
                insns.push(ins);
                offset += n;
            },
            Ok(None) => {
                return Ok(insns);
            },
            Err(e) => {
                return Err(e);
            },
        }
    }
}

/// The signatures of the methods that the instructions call.
pub fn collect_calls(insns: &Vec<Instruction>, table: &Vec<Option<MethodRef>>) -> (calls: Vec<Signature>)
    ensures
        super::flatten::signature_views(calls@) == calls_of(insns@, table@),
{
    let mut calls: Vec<Signature> = Vec::new();
    let mut i: usize = 0;
    while i < insns.len()
        invariant
            i <= insns@.len(),
            super::flatten::signature_views(calls@) == calls_of(insns@.take(i as int), table@),
        decreases insns.len() - i,
    {
        assert(insns@.take(i + 1).drop_last() =~= insns@.take(i as int));
        if let Some(index) = insns[i].m_idx {
            if (index as usize) < table.len() {
                if let Some(s) = resolve(&table[index as usize]) {
                    let ghost before = super::flatten::signature_views(calls@);
                    let ghost view = s@;
                    calls.push(s);
                }
            }
        }
        i += 1;
    }
    assert(insns@.take(insns@.len() as int) =~= insns@);
    calls
}

/// Decodes one method of a class.
pub fn decode_method(class: &DexClass, method: &DexMethod, table: &Vec<Option<MethodRef>>) -> (r: Option<
    Result<CallNode, DexError>,
>)
    ensures
        match decoded_method(*class, *method, table@) {
            None => r is None,
            Some(Ok(node)) => r matches Some(Ok(n)) && n@ == node,
            Some(Err(e)) => r matches Some(Err(f)) && f@ == e,
        },
{
    let code = match &method.code {
        None => {
            return None;
        },
        Some(code) => code,
    };
    match decode_code(code.as_slice()) {
        Ok(insns) => {
            let calls = collect_calls(&insns, table);
            let params = if method.params.len() == 0 {
                None
            } else {
                Some(method.params.as_slice())
            };
            let signature = Signature::new(
                class.class_type.as_str(),
                method.name.as_str(),
                params,
                method.return_type.as_str(),
            );
            Some(Ok(CallNode { method: Method { signature, insns }, calls }))
        },
        Err(source) => Some(
            Err(
                DexError {
                    class_name: class.java_name.clone(),
                    method_name: method.name.clone(),
                    source,
                },
            ),
        ),
    }
}

/// Decodes the methods of one file, class by class. The first component
/// of the result holds the call-graph nodes of the methods that decode, the
/// second the errors of those that do not; a method without code gives
/// neither.
pub fn decode_file(file: &DexFile) -> (r: (Vec<CallNode>, Vec<DexError>))
    ensures
        super::flatten::node_views(r.0@) == file_nodes(*file, file.classes@.len()),
        super::errors::error_views(r.1@) == file_failures(*file, file.classes@.len()),
{
    let mut nodes: Vec<CallNode> = Vec::new();
    let mut failures: Vec<DexError> = Vec::new();
    let mut c: usize = 0;
    while c < file.classes.len()
        invariant
            c <= file.classes@.len(),
            super::flatten::node_views(nodes@) == file_nodes(*file, c as nat),
            super::errors::error_views(failures@) == file_failures(*file, c as nat),
        decreases file.classes.len() - c,
    {
        let class = &file.classes[c];
        let ghost nodes_before_class = super::flatten::node_views(nodes@);
        let ghost failures_before_class = super::errors::error_views(failures@);
        let mut m: usize = 0;
        assert(failures_before_class + class_failures(*class, file.method_table@, 0)
            =~= failures_before_class);
        while m < class.methods.len()
            invariant
                m <= class.methods@.len(),
                super::flatten::node_views(nodes@) == nodes_before_class + class_nodes(
                    *class,
                    file.method_table@,
                    m as nat,
                ),
                super::errors::error_views(failures@) == failures_before_class + class_failures(
                    *class,
                    file.method_table@,
                    m as nat,
                ),
            decreases class.methods.len() - m,
        {
            let ghost nodes_now = super::flatten::node_views(nodes@);
            let ghost failures_now = super::errors::error_views(failures@);
            match decode_method(class, &class.methods[m], &file.method_table) {
                Some(Ok(node)) => {
                    let ghost view = node@;
                    nodes.push(node);
                    assert(nodes_now.push(view) =~= nodes_before_class + class_nodes(
                        *class,
                        file.method_table@,
                        (m + 1) as nat,
                    ));
                },
                Some(Err(e)) => {
                    let ghost view = e@;
                    failures.push(e);
                    assert(failures_now.push(view) =~= failures_before_class + class_failures(
                        *class,
                        file.method_table@,
                        (m + 1) as nat,
                    ));
                },
                None => {},
            }
            m += 1;
        }
        c += 1;
    }
    (nodes, failures)
}

/// Decodes the methods of the files, file by file. The first component of
/// the result holds the call-graph nodes of the methods that decode, the
/// second the errors of those that do not.
pub fn decode_methods(files: &[DexFile]) -> (r: (Vec<CallNode>, Vec<DexError>))
    ensures
        super::flatten::node_views(r.0@) == all_nodes(files@, files@.len()),
        super::errors::error_views(r.1@) == all_failures(files@, files@.len()),
{
    let mut nodes: Vec<CallNode> = Vec::new();
    let mut failures: Vec<DexError> = Vec::new();
    let mut f: usize = 0;
    while f < files.len()
        invariant
            f <= files@.len(),
            super::flatten::node_views(nodes@) == all_nodes(files@, f as nat),
            super::errors::error_views(failures@) == all_failures(files@, f as nat),
        decreases files.len() - f,
    {
        let ghost nodes_before = super::flatten::node_views(nodes@);
        let ghost failures_before = super::errors::error_views(failures@);
        let (mut more_nodes, mut more_failures) = decode_file(&files[f]);
        let ghost added_nodes = super::flatten::node_views(more_nodes@);
        let ghost added_failures = super::errors::error_views(more_failures@);
        nodes.append(&mut more_nodes);
        failures.append(&mut more_failures);
        f += 1;
    }
    (nodes, failures)
}

} // verus!
