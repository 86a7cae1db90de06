//! Method signatures, with their order, and methods with their instructions.

use vstd::prelude::*;
use super::instruction::Instruction;
use super::order::{
    compare_strings, lex_irreflexive, lex_lt, lex_skips_common_prefix, lex_total, lex_transitive,
    str_lt, strict_total, string_lt, strings_are_ordered, Rank,
};

verus! {

/// The identity of a method: the descriptor of its class, its name, the
/// descriptors of its parameters if it has any, and that of its return type.
#[derive(Debug, Clone, PartialEq, Eq, PartialOrd, Ord, Hash)]
pub struct Signature {
    pub class_type: String,
    pub method_name: String,
    pub params: Option<Vec<String>>,
    pub return_type: String,
}

/// What a [`Signature`] stands for.
pub struct SignatureView {
    pub class_type: Seq<char>,
    pub method_name: Seq<char>,
    pub params: Option<Seq<Seq<char>>>,
    pub return_type: Seq<char>,
}

/// The strings of a list as sequences of characters.
pub open spec fn strings(list: Seq<String>) -> Seq<Seq<char>> {
    Seq::new(list.len(), |i: int| list[i]@)
}

/// What an optional list of strings stands for.
pub open spec fn optional_strings(list: Option<Vec<String>>) -> Option<Seq<Seq<char>>> {
    match list {
        Some(list) => Some(strings(list@)),
        None => None,
    }
}

impl View for Signature {
    type V = SignatureView;

    open spec fn view(&self) -> SignatureView {
        SignatureView {
            class_type: self.class_type@,
            method_name: self.method_name@,
            params: optional_strings(self.params),
            return_type: self.return_type@,
        }
    }
}

/// The order of parameter lists: no list comes before any list, and two
/// lists are in lexicographic order over the order of strings.
pub open spec fn params_lt(a: Option<Seq<Seq<char>>>, b: Option<Seq<Seq<char>>>) -> bool {
    match (a, b) {
        (None, Some(_)) => true,
        (Some(x), Some(y)) => lex_lt(string_lt(), x, y),
        _ => false,
    }
}

/// The order of signatures: by class type, then by method name, then by
/// the parameters, then by the return type.
pub open spec fn sig_lt(a: SignatureView, b: SignatureView) -> bool {
    if a.class_type != b.class_type {
        str_lt(a.class_type, b.class_type)
    } else if a.method_name != b.method_name {
        str_lt(a.method_name, b.method_name)
    } else if a.params != b.params {
        params_lt(a.params, b.params)
    } else {
        str_lt(a.return_type, b.return_type)
    }
}

/// The order of signatures as a value.
pub open spec fn signature_lt() -> spec_fn(SignatureView, SignatureView) -> bool {
    |a: SignatureView, b: SignatureView| sig_lt(a, b)
}

/// No parameter list comes before itself.
proof fn params_irreflexive(a: Option<Seq<Seq<char>>>)
    ensures
        !params_lt(a, a),
{
    if let Some(x) = a {
        lex_irreflexive(string_lt(), x);
    }
}

/// The order of parameter lists goes on through a chain.
proof fn params_transitive(
    a: Option<Seq<Seq<char>>>,
    b: Option<Seq<Seq<char>>>,
    c: Option<Seq<Seq<char>>>,
)
    requires
        params_lt(a, b),
        params_lt(b, c),
    ensures
        params_lt(a, c),
{
    strings_are_ordered();
    if let (Some(x), Some(y), Some(z)) = (a, b, c) {
        lex_transitive(string_lt(), x, y, z);
    }
}

/// Of two different parameter lists one comes before the other.
proof fn params_total(a: Option<Seq<Seq<char>>>, b: Option<Seq<Seq<char>>>)
    ensures
        params_lt(a, b) || a == b || params_lt(b, a),
{
    strings_are_ordered();
    if let (Some(x), Some(y)) = (a, b) {
        lex_total(string_lt(), x, y);
    }
}

/// No signature comes before itself.
pub proof fn sig_lt_irreflexive(a: SignatureView)
    ensures
        !sig_lt(a, a),
{
    strings_are_ordered();
    assert(!string_lt()(a.return_type, a.return_type));
}

/// The order of signatures goes on through a chain.
pub proof fn sig_lt_transitive(a: SignatureView, b: SignatureView, c: SignatureView)
    requires
        sig_lt(a, b),
        sig_lt(b, c),
    ensures
        sig_lt(a, c),
{
    strings_are_ordered();
    let lt = string_lt();
    assert(lt(a.class_type, b.class_type) && lt(b.class_type, c.class_type) ==> lt(
        a.class_type,
        c.class_type,
    ));
    assert(lt(a.method_name, b.method_name) && lt(b.method_name, c.method_name) ==> lt(
        a.method_name,
        c.method_name,
    ));
    assert(lt(a.return_type, b.return_type) && lt(b.return_type, c.return_type) ==> lt(
        a.return_type,
        c.return_type,
    ));
    params_irreflexive(a.params);
    if params_lt(a.params, b.params) && params_lt(b.params, c.params) {
        params_transitive(a.params, b.params, c.params);
    }
}

/// Of two different signatures one comes before the other.
pub proof fn sig_lt_total(a: SignatureView, b: SignatureView)
    ensures
        sig_lt(a, b) || a == b || sig_lt(b, a),
{
    strings_are_ordered();
    let lt = string_lt();
    assert(lt(a.class_type, b.class_type) || a.class_type == b.class_type || lt(
        b.class_type,
        a.class_type,
    ));
    assert(lt(a.method_name, b.method_name) || a.method_name == b.method_name || lt(
        b.method_name,
        a.method_name,
    ));
    assert(lt(a.return_type, b.return_type) || a.return_type == b.return_type || lt(
        b.return_type,
        a.return_type,
    ));
    params_total(a.params, b.params);
}

/// Of two signatures at most one comes before the other.
pub proof fn sig_lt_asymmetric(a: SignatureView, b: SignatureView)
    requires
        sig_lt(a, b),
    ensures
        !sig_lt(b, a),
        a != b,
{
    sig_lt_irreflexive(a);
    if sig_lt(b, a) {
        sig_lt_transitive(a, b, a);
    }
}

/// The order of signatures is a strict total order.
pub proof fn signatures_are_ordered()
    ensures
        strict_total(signature_lt()),
{
    let lt = signature_lt();
    assert forall|x: SignatureView| !#[trigger] lt(x, x) by {
        sig_lt_irreflexive(x);
    }
    assert forall|x: SignatureView, y: SignatureView, z: SignatureView| #[trigger]
        lt(x, y) && #[trigger] lt(y, z) implies lt(x, z) by {
        sig_lt_transitive(x, y, z);
    }
    assert forall|x: SignatureView, y: SignatureView| #[trigger] lt(x, y) || x == y || lt(y, x) by {
        sig_lt_total(x, y);
    }
}

/// Compares two lists of strings lexicographically.
pub fn compare_string_lists(a: &Vec<String>, b: &Vec<String>) -> (r: Rank)
    ensures
        r == Rank::Before <==> lex_lt(string_lt(), strings(a@), strings(b@)),
        r == Rank::Same <==> strings(a@) == strings(b@),
        r == Rank::After <==> lex_lt(string_lt(), strings(b@), strings(a@)),
{
    let ghost x = strings(a@);
    let ghost y = strings(b@);
    proof {
        strings_are_ordered();
    }
    let mut i: usize = 0;
    while i < a.len() && i < b.len()
        invariant
            i <= a@.len(),
            i <= b@.len(),
            x == strings(a@),
            y == strings(b@),
            x.take(i as int) == y.take(i as int),
            strict_total(string_lt()),
        decreases a.len() - i,
    {
        let rank = compare_strings(a[i].as_str(), b[i].as_str());
        match rank {
            Rank::Same => {},
            _ => {
                proof {
                    lex_skips_common_prefix(string_lt(), x, y, i as int);
                    lex_skips_common_prefix(string_lt(), y, x, i as int);
                    assert(string_lt()(y[i as int], x[i as int]) == str_lt(y[i as int], x[i as int]));
                    lex_total(string_lt(), x, y);
                    if lex_lt(string_lt(), x, y) && lex_lt(string_lt(), y, x) {
                        lex_transitive(string_lt(), x, y, x);
                        lex_irreflexive(string_lt(), x);
                    }
                }
                return rank;
            },
        }
        i += 1;
    }
    proof {
        lex_skips_common_prefix(string_lt(), x, y, i as int);
        lex_skips_common_prefix(string_lt(), y, x, i as int);
        if x.len() == y.len() {
            assert(x.take(i as int) =~= x);
            assert(y.take(i as int) =~= y);
            lex_irreflexive(string_lt(), x);
        }
    }
    if a.len() < b.len() {
        Rank::Before
    } else if a.len() > b.len() {
        Rank::After
    } else {
        Rank::Same
    }
}

/// Compares two optional parameter lists.
pub fn compare_params(a: &Option<Vec<String>>, b: &Option<Vec<String>>) -> (r: Rank)
    ensures
        r == Rank::Before <==> params_lt(optional_strings(*a), optional_strings(*b)),
        r == Rank::Same <==> optional_strings(*a) == optional_strings(*b),
        r == Rank::After <==> params_lt(optional_strings(*b), optional_strings(*a)),
{
    match (a, b) {
        (None, None) => Rank::Same,
        (None, Some(_)) => Rank::Before,
        (Some(_), None) => Rank::After,
        (Some(x), Some(y)) => compare_string_lists(x, y),
    }
}

/// Copies a list of strings.
pub fn copy_strings(list: &[String]) -> (r: Vec<String>)
    ensures
        strings(r@) == strings(list@),
{
    let mut out: Vec<String> = Vec::new();
    let mut i: usize = 0;
    while i < list.len()
        invariant
            i <= list@.len(),
            out@.len() == i,
            forall|k: int| 0 <= k < i ==> (#[trigger] out@[k])@ == list@[k]@,
        decreases list.len() - i,
    {
        out.push(list[i].clone());
        i += 1;
    }
    out
}

impl Signature {
    /// The signature of the method `method_name` of the class `class_type`.
    /// A method without parameters has `None` for `params`.
    pub fn new(class_type: &str, method_name: &str, params: Option<&[String]>, return_type: &str) -> (s:
        Signature)
        ensures
            s@ == (SignatureView {
                class_type: class_type@,
                method_name: method_name@,
                params: match params {
                    Some(list) => Some(strings(list@)),
                    None => None,
                },
                return_type: return_type@,
            }),
    {
        Signature {
            class_type: class_type.to_owned(),
            method_name: method_name.to_owned(),
            params: match params {
                Some(list) => Some(copy_strings(list)),
                None => None,
            },
            return_type: return_type.to_owned(),
        }
    }

    /// A copy of the signature.
    pub fn duplicate(&self) -> (s: Signature)
        ensures
            s@ == self@,
    {
        Signature {
            class_type: self.class_type.clone(),
            method_name: self.method_name.clone(),
            params: match &self.params {
                Some(list) => Some(copy_strings(list.as_slice())),
                None => None,
            },
            return_type: self.return_type.clone(),
        }
    }

    /// How this signature stands to `other` in the order of signatures.
    pub fn compare(&self, other: &Signature) -> (r: Rank)
        ensures
            r == Rank::Before <==> sig_lt(self@, other@),
            r == Rank::Same <==> self@ == other@,
            r == Rank::After <==> sig_lt(other@, self@),
    {
        proof {
            sig_lt_total(self@, other@);
            sig_lt_irreflexive(self@);
            if sig_lt(self@, other@) {
                sig_lt_asymmetric(self@, other@);
            }
            if sig_lt(other@, self@) {
                sig_lt_asymmetric(other@, self@);
            }
        }
        match compare_strings(self.class_type.as_str(), other.class_type.as_str()) {
            Rank::Same => {},
            rank => {
                return rank;
            },
        }
        match compare_strings(self.method_name.as_str(), other.method_name.as_str()) {
            Rank::Same => {},
            rank => {
                return rank;
            },
        }
        match compare_params(&self.params, &other.params) {
            Rank::Same => {},
            rank => {
                return rank;
            },
        }
        compare_strings(self.return_type.as_str(), other.return_type.as_str())
    }
}

/// A method with its instructions in compact form.
#[derive(Debug, PartialEq, Eq, Hash)]
pub struct Method {
    pub signature: Signature,
    pub insns: Vec<Instruction>,
}

/// What a [`Method`] stands for.
pub struct MethodView {
    pub signature: SignatureView,
    pub insns: Seq<Instruction>,
}

impl View for Method {
    type V = MethodView;

    open spec fn view(&self) -> MethodView {
        MethodView { signature: self.signature@, insns: self.insns@ }
    }
}

/// The methods of a list as what they stand for.
pub open spec fn method_views(methods: Seq<Method>) -> Seq<MethodView> {
    Seq::new(methods.len(), |i: int| methods[i]@)
}

/// The opcode bytes of the instructions.
pub open spec fn opcode_bytes(insns: Seq<Instruction>) -> Seq<u8> {
    Seq::new(insns.len(), |i: int| insns[i].opcode.byte())
}

/// The opcode bytes of the instructions.
pub fn opcodes_of(insns: &Vec<Instruction>) -> (r: Vec<u8>)
    ensures
        r@ == opcode_bytes(insns@),
{
    let mut out: Vec<u8> = Vec::new();
    let mut i: usize = 0;
    while i < insns.len()
        invariant
            i <= insns@.len(),
            out@.len() == i,
            forall|k: int| 0 <= k < i ==> out@[k] == insns@[k].opcode.byte(),
        decreases insns.len() - i,
    {
        out.push(insns[i].opcode.to_u8());
        i += 1;
    }
    out
}

/// A method reduced to a name and its opcode bytes.
#[derive(Debug, PartialEq, Eq)]
pub struct CompactMethod {
    /// The class type of the method followed by its name.
    pub signature: String,
    /// The opcode bytes of its instructions, in order.
    pub insns: Vec<u8>,
}

impl CompactMethod {
    /// The compact form of `value`: its class type followed by its name, and
    /// the opcode bytes of its instructions.
    pub fn from_method(value: Method) -> (r: CompactMethod)
        ensures
            r.signature@ == value.signature.class_type@ + value.signature.method_name@,
            r.insns@ == opcode_bytes(value.insns@),
    {
        let Method { signature, insns } = value;
        let name = signature.class_type.concat(signature.method_name.as_str());
        CompactMethod { signature: name, insns: opcodes_of(&insns) }
    }
}

} // verus!
