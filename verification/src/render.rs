//! Text renderings of the types and signatures of the cleaned tree.
//!
//! Each renderer returns its text and appends to a log what it reports while
//! rendering: a type that it cannot render is written to the log as a line
//! `pos1: <debug text>` and rendered as `@@@`.

use vstd::prelude::*;
use crate::ast::Mutability;
use crate::clean::{
    Argument, FnDecl, Function, Generics, Method, Path, PathSegment, PrimitiveType, SelfTy,
    TyMethod, TyParam, TyParamBound, Type,
};
use crate::text::{
    concat, decimal, join, lemma_concat_step, lemma_texts_push, push_decimal,
    push_join, texts,
};

verus! {

/// `mut ` for a mutable pointer or reference.
pub open spec fn mut_text(m: Mutability) -> Seq<char> {
    if m == Mutability::Mutable {
        "mut "@
    } else {
        Seq::empty()
    }
}

/// The name of a primitive type.
pub open spec fn primitive_text(p: PrimitiveType) -> Seq<char> {
    match p {
        PrimitiveType::Int(n) => n@,
        PrimitiveType::Uint(n) => n@,
        PrimitiveType::Float(n) => n@,
        PrimitiveType::Str => "str"@,
        PrimitiveType::Bool => "bool"@,
        PrimitiveType::Char => "char"@,
    }
}

/// The text of a type.
pub open spec fn type_text(t: Type) -> Seq<char>
    decreases t,
{
    match t {
        Type::ResolvedPath(p, _) => (if p.global {
            "::"@
        } else {
            Seq::empty()
        }) + path_text(p),
        Type::Tuple(ts) => "("@ + tuple_text(ts@) + ")"@,
        Type::Primitive(p) => primitive_text(p),
        Type::FixedVector(tp, num) => "["@ + type_text(*tp) + ", .."@ + num@ + "]"@,
        Type::Vector(tp) => "["@ + type_text(*tp) + "]"@,
        Type::Str => "str"@,
        Type::Bool => "bool"@,
        Type::Unit => "()"@,
        Type::Bottom => "!"@,
        Type::Unique(tp) => "~"@ + type_text(*tp),
        Type::RawPointer(m, tp) => "*"@ + mut_text(m) + type_text(*tp),
        Type::BorrowedRef(_, m, tp) => "&"@ + mut_text(m) + type_text(*tp),
        Type::Generic(id) => "T_"@ + decimal(id as nat),
        Type::SelfType(_) => "Self"@,
        Type::Closure => "||"@,
        Type::Unsupported(_) => "@@@"@,
    }
}

/// The members of a tuple type, each followed by `, `.
pub open spec fn tuple_text(ts: Seq<Type>) -> Seq<char>
    decreases ts,
{
    if ts.len() == 0 {
        Seq::empty()
    } else {
        tuple_text(ts.subrange(0, ts.len() - 1)) + type_text(ts[ts.len() - 1]) + ", "@
    }
}

/// The text of a resolved path: `::` for a global path, then the segments
/// joined by `::`.
pub open spec fn path_text(p: Path) -> Seq<char>
    decreases p,
{
    (if p.global {
        "::"@
    } else {
        Seq::empty()
    }) + segments_text(p.segments@)
}

/// Segments joined by `::`.
pub open spec fn segments_text(segs: Seq<PathSegment>) -> Seq<char>
    decreases segs,
{
    if segs.len() == 0 {
        Seq::empty()
    } else if segs.len() == 1 {
        segment_text(segs[0])
    } else {
        segments_text(segs.subrange(0, segs.len() - 1)) + "::"@ + segment_text(segs[segs.len() - 1])
    }
}

/// A segment: its name, then its type arguments in `<..>` if it has any.
pub open spec fn segment_text(s: PathSegment) -> Seq<char>
    decreases s,
{
    s.name@ + if s.types@.len() == 0 {
        Seq::empty()
    } else {
        "<"@ + type_list_text(s.types@) + ">"@
    }
}

/// Types joined by `,`.
pub open spec fn type_list_text(ts: Seq<Type>) -> Seq<char>
    decreases ts,
{
    if ts.len() == 0 {
        Seq::empty()
    } else if ts.len() == 1 {
        type_text(ts[0])
    } else {
        type_list_text(ts.subrange(0, ts.len() - 1)) + ","@ + type_text(ts[ts.len() - 1])
    }
}

/// What rendering a type reports: a `pos1:` line for each type that cannot
/// be rendered, in the order in which they are met.
pub open spec fn type_trace(t: Type) -> Seq<char>
    decreases t,
{
    match t {
        Type::ResolvedPath(p, _) => path_trace(p),
        Type::Tuple(ts) => types_trace(ts@),
        Type::FixedVector(tp, _) => type_trace(*tp),
        Type::Vector(tp) => type_trace(*tp),
        Type::Unique(tp) => type_trace(*tp),
        Type::RawPointer(_, tp) => type_trace(*tp),
        Type::BorrowedRef(_, _, tp) => type_trace(*tp),
        Type::Unsupported(d) => "pos1: "@ + d@ + "\n"@,
        _ => Seq::empty(),
    }
}

/// What rendering a sequence of types reports.
pub open spec fn types_trace(ts: Seq<Type>) -> Seq<char>
    decreases ts,
{
    if ts.len() == 0 {
        Seq::empty()
    } else {
        types_trace(ts.subrange(0, ts.len() - 1)) + type_trace(ts[ts.len() - 1])
    }
}

/// What rendering a path reports.
pub open spec fn path_trace(p: Path) -> Seq<char>
    decreases p,
{
    segments_trace(p.segments@)
}

/// What rendering a sequence of segments reports.
pub open spec fn segments_trace(segs: Seq<PathSegment>) -> Seq<char>
    decreases segs,
{
    if segs.len() == 0 {
        Seq::empty()
    } else {
        segments_trace(segs.subrange(0, segs.len() - 1)) + segment_trace(segs[segs.len() - 1])
    }
}

/// What rendering a segment reports.
pub open spec fn segment_trace(s: PathSegment) -> Seq<char>
    decreases s,
{
    types_trace(s.types@)
}

fn push_mut(out: &mut String, m: Mutability)
    ensures
        final(out)@ == old(out)@ + mut_text(m),
{
    match m {
        Mutability::Mutable => out.append("mut "),
        Mutability::Immutable => {},
    }
}

/// Renders a type; reports on `log` what cannot be rendered.
pub fn type_to_str(t: &Type, log: &mut String) -> (ret: String)
    ensures
        ret@ == type_text(*t),
        final(log)@ == old(log)@ + type_trace(*t),
    decreases t,
{
    let mut ret = String::new();
    match t {
        Type::ResolvedPath(p, _) => {
            if p.global {
                ret.append("::");
            }
            let s = path_to_str(p, log);
            ret.append(s.as_str());
        },
        Type::Tuple(ts) => {
            ret.append("(");
            push_tuple(&mut ret, log, ts);
            ret.append(")");
        },
        Type::Primitive(p) => match p {
            PrimitiveType::Int(n) => ret.append(n.as_str()),
            PrimitiveType::Uint(n) => ret.append(n.as_str()),
            PrimitiveType::Float(n) => ret.append(n.as_str()),
            PrimitiveType::Str => ret.append("str"),
            PrimitiveType::Bool => ret.append("bool"),
            PrimitiveType::Char => ret.append("char"),
        },
        Type::FixedVector(tp, num) => {
            let s = type_to_str(tp, log);
            ret.append("[");
            ret.append(s.as_str());
            ret.append(", ..");
            ret.append(num.as_str());
            ret.append("]");
        },
        Type::Vector(tp) => {
            let s = type_to_str(tp, log);
            ret.append("[");
            ret.append(s.as_str());
            ret.append("]");
        },
        Type::Str => ret.append("str"),
        Type::Bool => ret.append("bool"),
        Type::Unit => ret.append("()"),
        Type::Bottom => ret.append("!"),
        Type::Unique(tp) => {
            let s = type_to_str(tp, log);
            ret.append("~");
            ret.append(s.as_str());
        },
        Type::RawPointer(m, tp) => {
            ret.append("*");
            push_mut(&mut ret, *m);
            let s = type_to_str(tp, log);
            ret.append(s.as_str());
        },
        Type::BorrowedRef(_, m, tp) => {
            ret.append("&");
            push_mut(&mut ret, *m);
            let s = type_to_str(tp, log);
            ret.append(s.as_str());
        },
        Type::Generic(id) => {
            ret.append("T_");
            push_decimal(&mut ret, *id as u64);
        },
        Type::SelfType(_) => ret.append("Self"),
        Type::Closure => ret.append("||"),
        Type::Unsupported(d) => {
            log.append("pos1: ");
            log.append(d.as_str());
            log.append("\n");
            ret.append("@@@");
        },
    }
    ret
}

fn push_tuple(out: &mut String, log: &mut String, ts: &Vec<Type>)
    ensures
        final(out)@ == old(out)@ + tuple_text(ts@),
        final(log)@ == old(log)@ + types_trace(ts@),
    decreases ts,
{
    let n = ts.len();
    let mut i: usize = 0;
    while i < n
        invariant
            n == ts.len(),
            i <= n,
            out@ == old(out)@ + tuple_text(ts@.take(i as int)),
            log@ == old(log)@ + types_trace(ts@.take(i as int)),
        decreases n - i,
    {
        assert(ts@.take(i + 1).subrange(0, i as int) =~= ts@.take(i as int));
        let s = type_to_str(&ts[i], log);
        out.append(s.as_str());
        out.append(", ");
        i = i + 1;
    }
    assert(ts@.take(n as int) =~= ts@);
}

fn push_type_list(out: &mut String, log: &mut String, ts: &Vec<Type>)
    ensures
        final(out)@ == old(out)@ + type_list_text(ts@),
        final(log)@ == old(log)@ + types_trace(ts@),
    decreases ts,
{
    let n = ts.len();
    let mut i: usize = 0;
    while i < n
        invariant
            n == ts.len(),
            i <= n,
            out@ == old(out)@ + type_list_text(ts@.take(i as int)),
            log@ == old(log)@ + types_trace(ts@.take(i as int)),
        decreases n - i,
    {
        assert(ts@.take(i + 1).subrange(0, i as int) =~= ts@.take(i as int));
        let s = type_to_str(&ts[i], log);
        if i > 0 {
            out.append(",");
        }
        out.append(s.as_str());
        i = i + 1;
    }
    assert(ts@.take(n as int) =~= ts@);
}

fn segment_to_str(seg: &PathSegment, log: &mut String) -> (ret: String)
    ensures
        ret@ == segment_text(*seg),
        final(log)@ == old(log)@ + segment_trace(*seg),
    decreases seg,
{
    let mut tmp = String::new();
    tmp.append(seg.name.as_str());
    if seg.types.len() > 0 {
        tmp.append("<");
        push_type_list(&mut tmp, log, &seg.types);
        tmp.append(">");
    }
    tmp
}

fn push_segments(out: &mut String, log: &mut String, segs: &Vec<PathSegment>)
    ensures
        final(out)@ == old(out)@ + segments_text(segs@),
        final(log)@ == old(log)@ + segments_trace(segs@),
    decreases segs,
{
    let n = segs.len();
    let mut i: usize = 0;
    while i < n
        invariant
            n == segs.len(),
            i <= n,
            out@ == old(out)@ + segments_text(segs@.take(i as int)),
            log@ == old(log)@ + segments_trace(segs@.take(i as int)),
        decreases n - i,
    {
        assert(segs@.take(i + 1).subrange(0, i as int) =~= segs@.take(i as int));
        let s = segment_to_str(&segs[i], log);
        if i > 0 {
            out.append("::");
        }
        out.append(s.as_str());
        i = i + 1;
    }
    assert(segs@.take(n as int) =~= segs@);
}

/// Renders a resolved path with the type arguments of its segments.
pub fn path_to_str(p: &Path, log: &mut String) -> (ret: String)
    ensures
        ret@ == path_text(*p),
        final(log)@ == old(log)@ + path_trace(*p),
    decreases p,
{
    let mut ret = String::new();
    if p.global {
        ret.append("::");
    }
    push_segments(&mut ret, log, &p.segments);
    ret
}

/// A bound of a type parameter: a trait bound followed by `+`; a lifetime
/// bound is not rendered.
pub open spec fn bound_text(b: TyParamBound) -> Seq<char> {
    match b {
        TyParamBound::TraitBound(tp) => type_text(tp) + "+"@,
        TyParamBound::RegionBound => Seq::empty(),
    }
}

/// What rendering a bound reports.
pub open spec fn bound_trace(b: TyParamBound) -> Seq<char> {
    match b {
        TyParamBound::TraitBound(tp) => type_trace(tp),
        TyParamBound::RegionBound => Seq::empty(),
    }
}

/// A type parameter: `T_` and its node, then its bounds in `:(..)` if it
/// has any.
pub open spec fn typaram_text(t: TyParam) -> Seq<char> {
    "T_"@ + decimal(t.id as nat) + if t.bounds@.len() == 0 {
        Seq::empty()
    } else {
        ":("@ + concat(t.bounds@.map_values(|b: TyParamBound| bound_text(b))) + ")"@
    }
}

/// What rendering a type parameter reports.
pub open spec fn typaram_trace(t: TyParam) -> Seq<char> {
    concat(t.bounds@.map_values(|b: TyParamBound| bound_trace(b)))
}

/// The lifetimes, each after `'`, then the type parameters.
pub open spec fn generics_parts(g: Generics) -> Seq<Seq<char>> {
    g.lifetimes@.map_values(|l: String| "'"@ + l@) + g.type_params@.map_values(
        |t: TyParam| typaram_text(t),
    )
}

/// The generic parameters in `<..>`, joined by `, `; nothing when there are
/// none.
pub open spec fn generics_text(g: Generics) -> Seq<char> {
    let content = join(generics_parts(g), ", "@);
    if content.len() > 0 {
        "<"@ + content + ">"@
    } else {
        Seq::empty()
    }
}

/// What rendering generic parameters reports.
pub open spec fn generics_trace(g: Generics) -> Seq<char> {
    concat(g.type_params@.map_values(|t: TyParam| typaram_trace(t)))
}

/// Renders a type parameter.
pub fn typaram_to_str(t: &TyParam, log: &mut String) -> (ret: String)
    ensures
        ret@ == typaram_text(*t),
        final(log)@ == old(log)@ + typaram_trace(*t),
{
    let mut ret = String::new();
    ret.append("T_");
    push_decimal(&mut ret, t.id as u64);
    let ghost head = ret@;
    let ghost texts_ = t.bounds@.map_values(|b: TyParamBound| bound_text(b));
    let ghost traces = t.bounds@.map_values(|b: TyParamBound| bound_trace(b));
    let n = t.bounds.len();
    if n > 0 {
        ret.append(":(");
    }
    let ghost open_ = ret@;
    let mut i: usize = 0;
    while i < n
        invariant
            n == t.bounds.len(),
            i <= n,
            texts_ == t.bounds@.map_values(|b: TyParamBound| bound_text(b)),
            traces == t.bounds@.map_values(|b: TyParamBound| bound_trace(b)),
            ret@ == open_ + concat(texts_.take(i as int)),
            log@ == old(log)@ + concat(traces.take(i as int)),
        decreases n - i,
    {
        proof {
            lemma_concat_step(texts_, i as int);
            lemma_concat_step(traces, i as int);
        }
        match &t.bounds[i] {
            TyParamBound::TraitBound(tp) => {
                let s = type_to_str(tp, log);
                ret.append(s.as_str());
                ret.append("+");
            },
            TyParamBound::RegionBound => {},
        }
        i = i + 1;
    }
    assert(texts_.take(n as int) =~= texts_);
    assert(traces.take(n as int) =~= traces);
    if n > 0 {
        ret.append(")");
    }
    ret
}

/// Renders generic parameters.
pub fn generics_to_str(g: &Generics, log: &mut String) -> (ret: String)
    ensures
        ret@ == generics_text(*g),
        final(log)@ == old(log)@ + generics_trace(*g),
{
    let mut segs: Vec<String> = Vec::new();
    let ghost lts = g.lifetimes@.map_values(|l: String| "'"@ + l@);
    let ghost tps = g.type_params@.map_values(|t: TyParam| typaram_text(t));
    let ghost trs = g.type_params@.map_values(|t: TyParam| typaram_trace(t));
    let nl = g.lifetimes.len();
    let mut i: usize = 0;
    while i < nl
        invariant
            nl == g.lifetimes.len(),
            i <= nl,
            lts == g.lifetimes@.map_values(|l: String| "'"@ + l@),
            texts(segs@) == lts.take(i as int),
        decreases nl - i,
    {
        let mut l = String::new();
        l.append("'");
        l.append(g.lifetimes[i].as_str());
        proof {
            lemma_texts_push(segs@, l);
            assert(lts.take(i + 1) =~= lts.take(i as int).push(lts[i as int]));
        }
        segs.push(l);
        i = i + 1;
    }
    assert(lts.take(nl as int) =~= lts);
    let nt = g.type_params.len();
    let mut j: usize = 0;
    while j < nt
        invariant
            nt == g.type_params.len(),
            j <= nt,
            tps == g.type_params@.map_values(|t: TyParam| typaram_text(t)),
            trs == g.type_params@.map_values(|t: TyParam| typaram_trace(t)),
            texts(segs@) == lts + tps.take(j as int),
            log@ == old(log)@ + concat(trs.take(j as int)),
        decreases nt - j,
    {
        proof {
            lemma_concat_step(trs, j as int);
        }
        let s = typaram_to_str(&g.type_params[j], log);
        proof {
            lemma_texts_push(segs@, s);
            assert(lts + tps.take(j + 1) =~= (lts + tps.take(j as int)).push(tps[j as int]));
        }
        segs.push(s);
        j = j + 1;
    }
    assert(tps.take(nt as int) =~= tps);
    assert(trs.take(nt as int) =~= trs);
    let mut content = String::new();
    push_join(&mut content, &segs, ", ");
    if content.as_str().is_empty() {
        String::new()
    } else {
        let mut ret = String::new();
        ret.append("<");
        ret.append(content.as_str());
        ret.append(">");
        ret
    }
}

/// A lifetime of a borrowed `self`, followed by a space.
pub open spec fn lifetime_text(lt: Option<String>) -> Seq<char> {
    match lt {
        Some(l) => "'"@ + l@ + " "@,
        None => Seq::empty(),
    }
}

/// How `self` is written among the arguments of a method, if at all.
pub open spec fn self_parts(s: SelfTy) -> Seq<Seq<char>> {
    match s {
        SelfTy::SelfStatic => Seq::empty(),
        SelfTy::SelfValue => seq!["self"@],
        SelfTy::SelfBorrowed(lt, m) => seq![
            "&"@ + lifetime_text(lt) + if m == Mutability::Mutable {
                "mut self"@
            } else {
                "self"@
            },
        ],
        SelfTy::SelfOwned => seq!["~self"@],
    }
}

/// An argument: `name: type`.
pub open spec fn arg_text(a: Argument) -> Seq<char> {
    a.name@ + ": "@ + type_text(a.type_)
}

/// A signature: generic parameters, the arguments in `(..)` joined by `, `,
/// then ` -> ` and the result type.
pub open spec fn signature_text(g: Generics, s: SelfTy, d: FnDecl) -> Seq<char> {
    generics_text(g) + "("@ + join(
        self_parts(s) + d.inputs@.map_values(|a: Argument| arg_text(a)),
        ", "@,
    ) + ") -> "@ + type_text(d.output)
}

/// What rendering a signature reports.
pub open spec fn signature_trace(g: Generics, d: FnDecl) -> Seq<char> {
    generics_trace(g) + concat(d.inputs@.map_values(|a: Argument| type_trace(a.type_)))
        + type_trace(d.output)
}

fn self_to_parts(s: &SelfTy) -> (parts: Vec<String>)
    ensures
        texts(parts@) == self_parts(*s),
{
    let mut parts: Vec<String> = Vec::new();
    proof {
        reveal_strlit("self");
        reveal_strlit("~self");
        assert(texts(parts@) =~= Seq::<Seq<char>>::empty());
    }
    match s {
        SelfTy::SelfStatic => {},
        SelfTy::SelfValue => {
            let mut p = String::new();
            p.append("self");
            proof {
                lemma_texts_push(parts@, p);
            }
            parts.push(p);
        },
        SelfTy::SelfBorrowed(lt, m) => {
            let mut p = String::new();
            p.append("&");
            match lt {
                Some(l) => {
                    p.append("'");
                    p.append(l.as_str());
                    p.append(" ");
                },
                None => {},
            }
            match m {
                Mutability::Mutable => p.append("mut self"),
                Mutability::Immutable => p.append("self"),
            }
            assert(p@ =~= self_parts(*s)[0]);
            proof {
                lemma_texts_push(parts@, p);
            }
            parts.push(p);
        },
        SelfTy::SelfOwned => {
            let mut p = String::new();
            p.append("~self");
            proof {
                lemma_texts_push(parts@, p);
            }
            parts.push(p);
        },
    }
    assert(texts(parts@) =~= self_parts(*s));
    parts
}

fn signature_to_str(g: &Generics, s: &SelfTy, d: &FnDecl, log: &mut String) -> (ret: String)
    ensures
        ret@ == signature_text(*g, *s, *d),
        final(log)@ == old(log)@ + signature_trace(*g, *d),
{
    let mut ret = generics_to_str(g, log);
    ret.append("(");
    let mut args = self_to_parts(s);
    let ghost sp = self_parts(*s);
    let ghost ats = d.inputs@.map_values(|a: Argument| arg_text(a));
    let ghost trs = d.inputs@.map_values(|a: Argument| type_trace(a.type_));
    let ghost log0 = log@;
    let n = d.inputs.len();
    let mut i: usize = 0;
    while i < n
        invariant
            n == d.inputs.len(),
            i <= n,
            sp == self_parts(*s),
            ats == d.inputs@.map_values(|a: Argument| arg_text(a)),
            trs == d.inputs@.map_values(|a: Argument| type_trace(a.type_)),
            texts(args@) == sp + ats.take(i as int),
            log@ == log0 + concat(trs.take(i as int)),
        decreases n - i,
    {
        proof {
            lemma_concat_step(trs, i as int);
        }
        let a = &d.inputs[i];
        let t = type_to_str(&a.type_, log);
        let mut p = String::new();
        p.append(a.name.as_str());
        p.append(": ");
        p.append(t.as_str());
        proof {
            lemma_texts_push(args@, p);
            assert(sp + ats.take(i + 1) =~= (sp + ats.take(i as int)).push(ats[i as int]));
        }
        args.push(p);
        i = i + 1;
    }
    assert(ats.take(n as int) =~= ats);
    assert(trs.take(n as int) =~= trs);
    push_join(&mut ret, &args, ", ");
    ret.append(") -> ");
    let o = type_to_str(&d.output, log);
    ret.append(o.as_str());
    ret
}

/// Renders the signature of a function.
pub fn function_to_str(f: &Function, log: &mut String) -> (ret: String)
    ensures
        ret@ == signature_text(f.generics, SelfTy::SelfStatic, f.decl),
        final(log)@ == old(log)@ + signature_trace(f.generics, f.decl),
{
    let s = SelfTy::SelfStatic;
    signature_to_str(&f.generics, &s, &f.decl, log)
}

/// Renders the signature of a required trait method.
pub fn tymethod_to_str(m: &TyMethod, log: &mut String) -> (ret: String)
    ensures
        ret@ == signature_text(m.generics, m.self_, m.decl),
        final(log)@ == old(log)@ + signature_trace(m.generics, m.decl),
{
    signature_to_str(&m.generics, &m.self_, &m.decl, log)
}

/// Renders the signature of a method.
pub fn method_to_str(m: &Method, log: &mut String) -> (ret: String)
    ensures
        ret@ == signature_text(m.generics, m.self_, m.decl),
        final(log)@ == old(log)@ + signature_trace(m.generics, m.decl),
{
    signature_to_str(&m.generics, &m.self_, &m.decl, log)
}

} // verus!
