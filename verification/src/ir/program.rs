use vstd::prelude::*;

use std::collections::HashMap;

use crate::ir::{Binding, Expr, Safety, VarId};

verus! {

/// A congestion-control function: a list of bindings and the variable that holds its output.
#[derive(Debug)]
pub struct Program {
    pub name: &'static str,
    pub bindings: Vec<Binding>,
    /// The variable whose value is the output of this program.
    pub result: VarId,
}

/// Summary produced by the placement analysis.
#[derive(Debug, Clone)]
pub struct PlacementReport {
    /// Total cost of the user-only bindings.
    pub weight: u32,
    /// Number of values exchanged between user space and the kernel.
    pub boundary_values: usize,
    pub place: Placement,
}

/// Placement recommendation; `Split` requires placing sub-programs separately.
#[derive(Debug, Clone, Copy, PartialEq, Eq, Structural)]
pub enum Placement {
    FullKernel,
    FullUserspace,
    Split,
}

/// Cost of the user-only work of one binding, nested bindings included.
pub open spec fn binding_user_weight(b: Binding) -> nat
    decreases b,
{
    match b {
        Binding::Let { safety, cost, .. } => if safety == Safety::UserOnly {
            cost as nat
        } else {
            0
        },
        Binding::If { then_bindings, else_bindings, .. } => bindings_user_weight(then_bindings@)
            + bindings_user_weight(else_bindings@),
        Binding::For { body, .. } => bindings_user_weight(body@),
    }
}

/// Cost of the user-only work of a sequence of bindings.
pub open spec fn bindings_user_weight(bs: Seq<Binding>) -> nat
    decreases bs,
{
    if bs.len() == 0 {
        0
    } else {
        bindings_user_weight(bs.drop_last()) + binding_user_weight(bs.last())
    }
}

/// The user-only weight of a prefix never exceeds that of a longer prefix.
proof fn lemma_user_weight_prefix(bs: Seq<Binding>, i: int, j: int)
    requires
        0 <= i <= j <= bs.len(),
    ensures
        bindings_user_weight(bs.take(i)) <= bindings_user_weight(bs.take(j)),
    decreases j - i,
{
    if i < j {
        lemma_user_weight_prefix(bs, i, j - 1);
        assert(bs.take(j).drop_last() =~= bs.take(j - 1));
    }
}

/// Adds the cost of the user-only work of `bindings`, nested bindings included, to `user`.
pub fn accumulate_weights(bindings: &[Binding], user: &mut u32)
    requires
        *old(user) + bindings_user_weight(bindings@) <= u32::MAX,
    ensures
        *final(user) == *old(user) + bindings_user_weight(bindings@),
    decreases bindings@,
{
    let ghost start: u32 = *user;
    let mut i: usize = 0;
    while i < bindings.len()
        invariant
            i <= bindings.len(),
            start + bindings_user_weight(bindings@) <= u32::MAX,
            *user == start + bindings_user_weight(bindings@.take(i as int)),
        decreases bindings.len() - i,
    {
        proof {
            lemma_user_weight_prefix(bindings@, i + 1, bindings@.len() as int);
            assert(bindings@.take(i + 1).drop_last() =~= bindings@.take(i as int));
            assert(bindings@.take(bindings@.len() as int) =~= bindings@);
            assert(bindings@.take(i + 1).last() == bindings@[i as int]);
            assert(bindings_user_weight(bindings@.take(i + 1)) == bindings_user_weight(
                bindings@.take(i as int),
            ) + binding_user_weight(bindings@[i as int]));
        }
        match &bindings[i] {
            Binding::Let { safety, cost, .. } => {
                if *safety == Safety::UserOnly {
                    *user = *user + *cost;
                }
            },
            Binding::If { then_bindings, else_bindings, .. } => {
                assert(decreases_to!(bindings@ => bindings@[i as int]));
                accumulate_weights(then_bindings.as_slice(), user);
                accumulate_weights(else_bindings.as_slice(), user);
            },
            Binding::For { body, .. } => {
                assert(decreases_to!(bindings@ => bindings@[i as int]));
                accumulate_weights(body.as_slice(), user);
            },
        }
        i = i + 1;
    }
    proof {
        assert(bindings@.take(bindings@.len() as int) =~= bindings@);
    }
}


/// The variables that an expression reads, in order, with repetitions.
pub open spec fn expr_vars(e: Expr) -> Seq<VarId> {
    match e {
        Expr::Var(v) => seq![v],
        Expr::Const(_) => seq![],
        Expr::BinOp { lhs, rhs, .. } => seq![lhs, rhs],
        Expr::Call { args, .. } => args@,
        Expr::FieldGet { object, .. } => seq![object],
    }
}

/// The definition map after visiting one binding: each `Let` records the safety of the
/// variable it defines, a later definition of the same variable replacing an earlier one;
/// the `then` branch is visited before the `else` branch.
pub open spec fn binding_defs(m: Map<VarId, Safety>, b: Binding) -> Map<VarId, Safety>
    decreases b,
{
    match b {
        Binding::Let { var, safety, .. } => m.insert(var, safety),
        Binding::If { then_bindings, else_bindings, .. } => bindings_defs(
            bindings_defs(m, then_bindings@),
            else_bindings@,
        ),
        Binding::For { body, .. } => bindings_defs(m, body@),
    }
}

/// The definition map after visiting a sequence of bindings in order.
pub open spec fn bindings_defs(m: Map<VarId, Safety>, bs: Seq<Binding>) -> Map<VarId, Safety>
    decreases bs,
{
    if bs.len() == 0 {
        m
    } else {
        binding_defs(bindings_defs(m, bs.drop_last()), bs.last())
    }
}

/// Whether a use, at safety `use_safety`, of a variable crosses the user/kernel boundary:
/// the variable has a recorded definition whose safety differs.
pub open spec fn is_crossing(defs: Map<VarId, Safety>, use_safety: Safety, v: VarId) -> bool {
    defs.contains_key(v) && defs[v] != use_safety
}

/// Number of uses among `vars` that cross the boundary.
pub open spec fn crossings_in_vars(
    defs: Map<VarId, Safety>,
    use_safety: Safety,
    vars: Seq<VarId>,
) -> nat
    decreases vars.len(),
{
    if vars.len() == 0 {
        0
    } else {
        crossings_in_vars(defs, use_safety, vars.drop_last()) + if is_crossing(
            defs,
            use_safety,
            vars.last(),
        ) {
            1nat
        } else {
            0nat
        }
    }
}

/// Number of boundary crossings of the `Let` bindings within one binding.
pub open spec fn binding_crossings(defs: Map<VarId, Safety>, b: Binding) -> nat
    decreases b,
{
    match b {
        Binding::Let { safety, expr, .. } => crossings_in_vars(defs, safety, expr_vars(expr)),
        Binding::If { then_bindings, else_bindings, .. } => bindings_crossings(
            defs,
            then_bindings@,
        ) + bindings_crossings(defs, else_bindings@),
        Binding::For { body, .. } => bindings_crossings(defs, body@),
    }
}

/// Number of boundary crossings within a sequence of bindings.
pub open spec fn bindings_crossings(defs: Map<VarId, Safety>, bs: Seq<Binding>) -> nat
    decreases bs,
{
    if bs.len() == 0 {
        0
    } else {
        bindings_crossings(defs, bs.drop_last()) + binding_crossings(defs, bs.last())
    }
}

/// Number of values exchanged between user space and the kernel: every use of a variable
/// whose (last) definition has another safety than the use.
pub open spec fn boundary_crossings(bs: Seq<Binding>) -> nat {
    bindings_crossings(bindings_defs(Map::empty(), bs), bs)
}

proof fn lemma_crossings_prefix(defs: Map<VarId, Safety>, bs: Seq<Binding>, i: int, j: int)
    requires
        0 <= i <= j <= bs.len(),
    ensures
        bindings_crossings(defs, bs.take(i)) <= bindings_crossings(defs, bs.take(j)),
    decreases j - i,
{
    if i < j {
        lemma_crossings_prefix(defs, bs, i, j - 1);
        assert(bs.take(j).drop_last() =~= bs.take(j - 1));
    }
}

proof fn lemma_var_crossings_prefix(
    defs: Map<VarId, Safety>,
    s: Safety,
    vs: Seq<VarId>,
    i: int,
    j: int,
)
    requires
        0 <= i <= j <= vs.len(),
    ensures
        crossings_in_vars(defs, s, vs.take(i)) <= crossings_in_vars(defs, s, vs.take(j)),
    decreases j - i,
{
    if i < j {
        lemma_var_crossings_prefix(defs, s, vs, i, j - 1);
        assert(vs.take(j).drop_last() =~= vs.take(j - 1));
    }
}

/// The variables that an expression reads.
pub fn vars_in_expr(expr: &Expr) -> (vars: Vec<VarId>)
    ensures
        vars@ == expr_vars(*expr),
{
    match expr {
        Expr::Var(v) => vec![*v],
        Expr::Const(_) => vec![],
        Expr::BinOp { lhs, rhs, .. } => vec![*lhs, *rhs],
        Expr::Call { args, .. } => args.clone(),
        Expr::FieldGet { object, .. } => vec![*object],
    }
}

/// Records the safety of every variable defined in `bindings`, the last definition winning.
pub fn collect_def_safety(bindings: &[Binding], map: &mut HashMap<VarId, Safety>)
    ensures
        final(map)@ == bindings_defs(old(map)@, bindings@),
    decreases bindings@,
{
    let ghost start = map@;
    let mut i: usize = 0;
    while i < bindings.len()
        invariant
            i <= bindings.len(),
            map@ == bindings_defs(start, bindings@.take(i as int)),
        decreases bindings.len() - i,
    {
        proof {
            assert(bindings@.take(i + 1).drop_last() =~= bindings@.take(i as int));
            assert(bindings@.take(i + 1).last() == bindings@[i as int]);
            assert(bindings_defs(start, bindings@.take(i + 1)) == binding_defs(
                bindings_defs(start, bindings@.take(i as int)),
                bindings@[i as int],
            ));
        }
        match &bindings[i] {
            Binding::Let { var, safety, .. } => {
                map.insert(*var, *safety);
            },
            Binding::If { then_bindings, else_bindings, .. } => {
                assert(decreases_to!(bindings@ => bindings@[i as int]));
                collect_def_safety(then_bindings.as_slice(), map);
                collect_def_safety(else_bindings.as_slice(), map);
            },
            Binding::For { body, .. } => {
                assert(decreases_to!(bindings@ => bindings@[i as int]));
                collect_def_safety(body.as_slice(), map);
            },
        }
        i = i + 1;
    }
    proof {
        assert(bindings@.take(bindings@.len() as int) =~= bindings@);
    }
}

/// Adds the number of uses in `bindings` that cross the boundary, against `def_safety`, to `count`.
pub fn check_crossings(bindings: &[Binding], def_safety: &HashMap<VarId, Safety>, count: &mut usize)
    requires
        *old(count) + bindings_crossings(def_safety@, bindings@) <= usize::MAX,
    ensures
        *final(count) == *old(count) + bindings_crossings(def_safety@, bindings@),
    decreases bindings@,
{
    let ghost start: usize = *count;
    let ghost defs = def_safety@;
    let mut i: usize = 0;
    while i < bindings.len()
        invariant
            i <= bindings.len(),
            defs == def_safety@,
            start + bindings_crossings(defs, bindings@) <= usize::MAX,
            *count == start + bindings_crossings(defs, bindings@.take(i as int)),
        decreases bindings.len() - i,
    {
        proof {
            lemma_crossings_prefix(defs, bindings@, i + 1, bindings@.len() as int);
            assert(bindings@.take(bindings@.len() as int) =~= bindings@);
            assert(bindings@.take(i + 1).drop_last() =~= bindings@.take(i as int));
            assert(bindings@.take(i + 1).last() == bindings@[i as int]);
            assert(bindings_crossings(defs, bindings@.take(i + 1)) == bindings_crossings(
                defs,
                bindings@.take(i as int),
            ) + binding_crossings(defs, bindings@[i as int]));
        }
        match &bindings[i] {
            Binding::Let { safety: use_safety, expr, .. } => {
                let used_vars = vars_in_expr(expr);
                let ghost base: usize = *count;
                let ghost vs = used_vars@;
                let mut k: usize = 0;
                while k < used_vars.len()
                    invariant
                        k <= used_vars.len(),
                        vs == used_vars@,
                        defs == def_safety@,
                        base + crossings_in_vars(defs, *use_safety, vs) <= usize::MAX,
                        *count == base + crossings_in_vars(defs, *use_safety, vs.take(k as int)),
                    decreases used_vars.len() - k,
                {
                    let v = used_vars[k];
                    proof {
                        lemma_var_crossings_prefix(defs, *use_safety, vs, k + 1, vs.len() as int);
                        assert(vs.take(vs.len() as int) =~= vs);
                        assert(vs.take(k + 1).drop_last() =~= vs.take(k as int));
                        assert(vs.take(k + 1).last() == v);
                    }
                    match def_safety.get(&v) {
                        Some(def) => {
                            if *def != *use_safety {
                                *count = *count + 1;
                            }
                        },
                        None => {},
                    }
                    k = k + 1;
                }
                proof {
                    assert(vs.take(vs.len() as int) =~= vs);
                }
            },
            Binding::If { then_bindings, else_bindings, .. } => {
                assert(decreases_to!(bindings@ => bindings@[i as int]));
                check_crossings(then_bindings.as_slice(), def_safety, count);
                check_crossings(else_bindings.as_slice(), def_safety, count);
            },
            Binding::For { body, .. } => {
                assert(decreases_to!(bindings@ => bindings@[i as int]));
                check_crossings(body.as_slice(), def_safety, count);
            },
        }
        i = i + 1;
    }
    proof {
        assert(bindings@.take(bindings@.len() as int) =~= bindings@);
    }
}

/// Counts the uses of variables that cross between user space and the kernel.
pub fn count_boundary_crossings(bindings: &[Binding]) -> (crossings: usize)
    requires
        boundary_crossings(bindings@) <= usize::MAX,
    ensures
        crossings == boundary_crossings(bindings@),
{
    let mut def_safety: HashMap<VarId, Safety> = HashMap::new();
    collect_def_safety(bindings, &mut def_safety);
    let mut crossings: usize = 0;
    check_crossings(bindings, &def_safety, &mut crossings);
    crossings
}

impl Program {
    /// Placement analysis of the program. The cost model for programs with user-only work
    /// is not defined, so the program must carry none: such a program is recommended for
    /// the kernel in full.
    pub fn placement_report(&self) -> (report: PlacementReport)
        requires
            bindings_user_weight(self.bindings@) == 0,
            boundary_crossings(self.bindings@) <= usize::MAX,
        ensures
            report.weight == bindings_user_weight(self.bindings@),
            report.boundary_values == boundary_crossings(self.bindings@),
            report.place == Placement::FullKernel,
    {
        let mut weight: u32 = 0;
        accumulate_weights(self.bindings.as_slice(), &mut weight);
        let boundary_values = count_boundary_crossings(self.bindings.as_slice());
        PlacementReport { weight, boundary_values, place: Placement::FullKernel }
    }
}


/// Every `Let` within the binding, at any depth, carries the safety `s`.
pub open spec fn binding_uniform(b: Binding, s: Safety) -> bool
    decreases b,
{
    match b {
        Binding::Let { safety, .. } => safety == s,
        Binding::If { then_bindings, else_bindings, .. } => bindings_uniform(then_bindings@, s)
            && bindings_uniform(else_bindings@, s),
        Binding::For { body, .. } => bindings_uniform(body@, s),
    }
}

/// Every `Let` within the bindings, at any depth, carries the safety `s`.
pub open spec fn bindings_uniform(bs: Seq<Binding>, s: Safety) -> bool
    decreases bs,
{
    if bs.len() == 0 {
        true
    } else {
        bindings_uniform(bs.drop_last(), s) && binding_uniform(bs.last(), s)
    }
}

proof fn lemma_binding_kernel_safe_weight(b: Binding)
    requires
        binding_uniform(b, Safety::KernelSafe),
    ensures
        binding_user_weight(b) == 0,
    decreases b,
{
    match b {
        Binding::Let { .. } => {},
        Binding::If { then_bindings, else_bindings, .. } => {
            lemma_bindings_kernel_safe_weight(then_bindings@);
            lemma_bindings_kernel_safe_weight(else_bindings@);
        },
        Binding::For { body, .. } => {
            lemma_bindings_kernel_safe_weight(body@);
        },
    }
}

proof fn lemma_bindings_kernel_safe_weight(bs: Seq<Binding>)
    requires
        bindings_uniform(bs, Safety::KernelSafe),
    ensures
        bindings_user_weight(bs) == 0,
    decreases bs,
{
    if bs.len() > 0 {
        lemma_bindings_kernel_safe_weight(bs.drop_last());
        lemma_binding_kernel_safe_weight(bs.last());
    }
}

/// Law: a program in which nothing is user-only carries no user-only weight, so the
/// placement analysis accepts it and recommends it for the kernel in full.
pub proof fn law_kernel_safe_program_has_no_user_weight(bs: Seq<Binding>)
    requires
        bindings_uniform(bs, Safety::KernelSafe),
    ensures
        bindings_user_weight(bs) == 0,
{
    lemma_bindings_kernel_safe_weight(bs);
}

/// All recorded definitions carry the safety `s`.
pub open spec fn defs_uniform(m: Map<VarId, Safety>, s: Safety) -> bool {
    forall|v: VarId| #[trigger] m.contains_key(v) ==> m[v] == s
}

proof fn lemma_binding_defs_uniform(m: Map<VarId, Safety>, b: Binding, s: Safety)
    requires
        defs_uniform(m, s),
        binding_uniform(b, s),
    ensures
        defs_uniform(binding_defs(m, b), s),
    decreases b,
{
    match b {
        Binding::Let { .. } => {},
        Binding::If { then_bindings, else_bindings, .. } => {
            lemma_bindings_defs_uniform(m, then_bindings@, s);
            lemma_bindings_defs_uniform(bindings_defs(m, then_bindings@), else_bindings@, s);
        },
        Binding::For { body, .. } => {
            lemma_bindings_defs_uniform(m, body@, s);
        },
    }
}

proof fn lemma_bindings_defs_uniform(m: Map<VarId, Safety>, bs: Seq<Binding>, s: Safety)
    requires
        defs_uniform(m, s),
        bindings_uniform(bs, s),
    ensures
        defs_uniform(bindings_defs(m, bs), s),
    decreases bs,
{
    if bs.len() > 0 {
        lemma_bindings_defs_uniform(m, bs.drop_last(), s);
        lemma_binding_defs_uniform(bindings_defs(m, bs.drop_last()), bs.last(), s);
    }
}

proof fn lemma_vars_no_crossings(defs: Map<VarId, Safety>, s: Safety, vs: Seq<VarId>)
    requires
        defs_uniform(defs, s),
    ensures
        crossings_in_vars(defs, s, vs) == 0,
    decreases vs.len(),
{
    if vs.len() > 0 {
        lemma_vars_no_crossings(defs, s, vs.drop_last());
    }
}

proof fn lemma_binding_no_crossings(defs: Map<VarId, Safety>, b: Binding, s: Safety)
    requires
        defs_uniform(defs, s),
        binding_uniform(b, s),
    ensures
        binding_crossings(defs, b) == 0,
    decreases b,
{
    match b {
        Binding::Let { expr, .. } => {
            lemma_vars_no_crossings(defs, s, expr_vars(expr));
        },
        Binding::If { then_bindings, else_bindings, .. } => {
            lemma_bindings_no_crossings(defs, then_bindings@, s);
            lemma_bindings_no_crossings(defs, else_bindings@, s);
        },
        Binding::For { body, .. } => {
            lemma_bindings_no_crossings(defs, body@, s);
        },
    }
}

proof fn lemma_bindings_no_crossings(defs: Map<VarId, Safety>, bs: Seq<Binding>, s: Safety)
    requires
        defs_uniform(defs, s),
        bindings_uniform(bs, s),
    ensures
        bindings_crossings(defs, bs) == 0,
    decreases bs,
{
    if bs.len() > 0 {
        lemma_bindings_no_crossings(defs, bs.drop_last(), s);
        lemma_binding_no_crossings(defs, bs.last(), s);
    }
}

/// Law: when every binding of a program has the same safety, no value crosses between
/// user space and the kernel.
pub proof fn law_uniform_program_has_no_crossings(bs: Seq<Binding>, s: Safety)
    requires
        bindings_uniform(bs, s),
    ensures
        boundary_crossings(bs) == 0,
{
    lemma_bindings_defs_uniform(Map::empty(), bs, s);
    lemma_bindings_no_crossings(bindings_defs(Map::empty(), bs), bs, s);
}

/// Law: the user-only weight of two sequences of bindings, one after the other, is the sum
/// of their weights.
pub proof fn law_user_weight_adds_up(a: Seq<Binding>, b: Seq<Binding>)
    ensures
        bindings_user_weight(a + b) == bindings_user_weight(a) + bindings_user_weight(b),
    decreases b.len(),
{
    if b.len() == 0 {
        assert(a + b =~= a);
    } else {
        law_user_weight_adds_up(a, b.drop_last());
        assert((a + b).drop_last() =~= a + b.drop_last());
        assert((a + b).last() == b.last());
    }
}

/// Law: the boundary crossings of two sequences of bindings, one after the other, against
/// the same definitions, are the sum of their crossings.
pub proof fn law_crossings_add_up(defs: Map<VarId, Safety>, a: Seq<Binding>, b: Seq<Binding>)
    ensures
        bindings_crossings(defs, a + b) == bindings_crossings(defs, a) + bindings_crossings(
            defs,
            b,
        ),
    decreases b.len(),
{
    if b.len() == 0 {
        assert(a + b =~= a);
    } else {
        law_crossings_add_up(defs, a, b.drop_last());
        assert((a + b).drop_last() =~= a + b.drop_last());
        assert((a + b).last() == b.last());
    }
}

/// Law: the user-only weight does not depend on the order of the bindings: any
/// permutation of them weighs the same.
pub proof fn law_user_weight_ignores_order(bs: Seq<Binding>, q: Seq<Binding>)
    requires
        q.to_multiset() == bs.to_multiset(),
    ensures
        bindings_user_weight(q) == bindings_user_weight(bs),
    decreases bs.len(),
{
    broadcast use vstd::seq_lib::group_to_multiset_ensures;

    if bs.len() == 0 {
        assert(q.to_multiset().len() == 0);
        assert(q =~= Seq::<Binding>::empty());
    } else {
        let x = bs.last();
        let rest = bs.drop_last();
        assert(rest.push(x) =~= bs);
        assert(bs.to_multiset() =~= rest.to_multiset().insert(x));
        assert(q.to_multiset().count(x) > 0);
        assert(q.contains(x));
        let i = choose|i: int| 0 <= i < q.len() && q[i] == x;
        let q1 = q.remove(i);
        assert(q1.to_multiset() =~= q.to_multiset().remove(x));
        assert(q1.to_multiset() =~= rest.to_multiset());
        law_user_weight_ignores_order(rest, q1);
        let left = q.take(i);
        let right = q.skip(i + 1);
        assert(q1 =~= left + right);
        assert(q =~= left + seq![x] + right);
        law_user_weight_adds_up(left, right);
        law_user_weight_adds_up(left, seq![x]);
        law_user_weight_adds_up(left + seq![x], right);
        assert(seq![x].drop_last() =~= Seq::<Binding>::empty());
        assert(seq![x].last() == x);
        assert(bindings_user_weight(seq![x].drop_last()) == 0);
        assert(bindings_user_weight(seq![x]) == binding_user_weight(x));
        assert(bindings_user_weight(bs) == bindings_user_weight(rest) + binding_user_weight(x));
    }
}

proof fn lemma_binding_defs_overlay(m: Map<VarId, Safety>, b: Binding)
    ensures
        binding_defs(m, b) == m.union_prefer_right(binding_defs(Map::empty(), b)),
    decreases b,
{
    match b {
        Binding::Let { var, safety, .. } => {
            assert(m.insert(var, safety) =~= m.union_prefer_right(
                Map::<VarId, Safety>::empty().insert(var, safety),
            ));
        },
        Binding::If { then_bindings, else_bindings, .. } => {
            let e = Map::<VarId, Safety>::empty();
            lemma_bindings_defs_overlay(m, then_bindings@);
            lemma_bindings_defs_overlay(bindings_defs(m, then_bindings@), else_bindings@);
            lemma_bindings_defs_overlay(e, then_bindings@);
            lemma_bindings_defs_overlay(bindings_defs(e, then_bindings@), else_bindings@);
            let dt = bindings_defs(e, then_bindings@);
            let de = bindings_defs(e, else_bindings@);
            assert(e.union_prefer_right(dt) =~= dt);
            assert(m.union_prefer_right(dt).union_prefer_right(de) =~= m.union_prefer_right(
                dt.union_prefer_right(de),
            ));
        },
        Binding::For { body, .. } => {
            lemma_bindings_defs_overlay(m, body@);
        },
    }
}

proof fn lemma_bindings_defs_overlay(m: Map<VarId, Safety>, bs: Seq<Binding>)
    ensures
        bindings_defs(m, bs) == m.union_prefer_right(bindings_defs(Map::empty(), bs)),
    decreases bs,
{
    let e = Map::<VarId, Safety>::empty();
    if bs.len() == 0 {
        assert(m.union_prefer_right(e) =~= m);
    } else {
        lemma_bindings_defs_overlay(m, bs.drop_last());
        lemma_bindings_defs_overlay(e, bs.drop_last());
        lemma_binding_defs_overlay(bindings_defs(m, bs.drop_last()), bs.last());
        lemma_binding_defs_overlay(bindings_defs(e, bs.drop_last()), bs.last());
        let d = bindings_defs(e, bs.drop_last());
        let db = binding_defs(e, bs.last());
        assert(e.union_prefer_right(d) =~= d);
        assert(m.union_prefer_right(d).union_prefer_right(db) =~= m.union_prefer_right(
            d.union_prefer_right(db),
        ));
    }
}

/// Law: collecting the definitions of the same bindings a second time changes nothing.
pub proof fn law_collect_defs_idempotent(m: Map<VarId, Safety>, bs: Seq<Binding>)
    ensures
        bindings_defs(bindings_defs(m, bs), bs) == bindings_defs(m, bs),
{
    let d = bindings_defs(Map::empty(), bs);
    lemma_bindings_defs_overlay(m, bs);
    lemma_bindings_defs_overlay(bindings_defs(m, bs), bs);
    assert(m.union_prefer_right(d).union_prefer_right(d) =~= m.union_prefer_right(d));
}

/// Law: collecting the definitions of two sequences of bindings, one after the other, is
/// collecting those of the first and then, on top, those of the second: a later
/// definition of a variable replaces an earlier one.
pub proof fn law_collect_defs_in_order(m: Map<VarId, Safety>, a: Seq<Binding>, b: Seq<Binding>)
    ensures
        bindings_defs(m, a + b) == bindings_defs(bindings_defs(m, a), b),
    decreases b.len(),
{
    if b.len() == 0 {
        assert(a + b =~= a);
    } else {
        law_collect_defs_in_order(m, a, b.drop_last());
        assert((a + b).drop_last() =~= a + b.drop_last());
        assert((a + b).last() == b.last());
    }
}

/// Law: the crossing uses of a variable list are those, among its entries, of a variable
/// that has a definition whose safety differs from the use's, repetitions counted.
pub proof fn law_var_crossings_counts_differing_uses(
    defs: Map<VarId, Safety>,
    use_safety: Safety,
    vars: Seq<VarId>,
)
    ensures
        crossings_in_vars(defs, use_safety, vars) == vars.filter(
            |v: VarId| defs.contains_key(v) && defs[v] != use_safety,
        ).len(),
    decreases vars.len(),
{
    reveal_with_fuel(Seq::<VarId>::filter, 1);
    if vars.len() > 0 {
        law_var_crossings_counts_differing_uses(defs, use_safety, vars.drop_last());
    }
}

/// Law: an `If` counts exactly like its `then` branch followed by its `else` branch, in
/// weight, in crossings and in the definitions it records; so for weight and crossings
/// the order of its branches does not matter.
pub proof fn law_if_is_both_branches(
    defs: Map<VarId, Safety>,
    m: Map<VarId, Safety>,
    cond: VarId,
    then_bindings: Vec<Binding>,
    else_bindings: Vec<Binding>,
)
    ensures
        binding_crossings(defs, (Binding::If { cond, then_bindings, else_bindings }))
            == bindings_crossings(defs, then_bindings@ + else_bindings@),
        binding_user_weight((Binding::If { cond, then_bindings, else_bindings }))
            == bindings_user_weight(then_bindings@ + else_bindings@),
        binding_defs(m, (Binding::If { cond, then_bindings, else_bindings })) == bindings_defs(
            m,
            then_bindings@ + else_bindings@,
        ),
        binding_crossings(defs, (Binding::If { cond, then_bindings, else_bindings }))
            == binding_crossings(
            defs,
            (Binding::If { cond, then_bindings: else_bindings, else_bindings: then_bindings }),
        ),
        binding_user_weight((Binding::If { cond, then_bindings, else_bindings }))
            == binding_user_weight(
            (Binding::If { cond, then_bindings: else_bindings, else_bindings: then_bindings }),
        ),
{
    law_crossings_add_up(defs, then_bindings@, else_bindings@);
    law_user_weight_adds_up(then_bindings@, else_bindings@);
    law_collect_defs_in_order(m, then_bindings@, else_bindings@);
}

/// Law: a `For` counts exactly like its body, in weight, in crossings and in the
/// definitions it records.
pub proof fn law_for_is_its_body(
    defs: Map<VarId, Safety>,
    m: Map<VarId, Safety>,
    var: VarId,
    bound: VarId,
    body: Vec<Binding>,
)
    ensures
        binding_crossings(defs, (Binding::For { var, bound, body })) == bindings_crossings(
            defs,
            body@,
        ),
        binding_user_weight((Binding::For { var, bound, body })) == bindings_user_weight(body@),
        binding_defs(m, (Binding::For { var, bound, body })) == bindings_defs(m, body@),
{
}

/// Law: a `Let` weighs its cost when it is user-only and nothing otherwise, records the
/// safety of the variable it defines, and crosses once for each use in its expression of
/// a variable defined with another safety.
pub proof fn law_let_by_inputs(
    defs: Map<VarId, Safety>,
    m: Map<VarId, Safety>,
    var: VarId,
    ty: Option<crate::ir::Type>,
    expr: Expr,
    safety: Safety,
    cost: u32,
)
    ensures
        binding_user_weight((Binding::Let { var, ty, expr, safety, cost })) == if safety
            == Safety::UserOnly {
            cost as nat
        } else {
            0
        },
        binding_defs(m, (Binding::Let { var, ty, expr, safety, cost })) == m.insert(var, safety),
        binding_crossings(defs, (Binding::Let { var, ty, expr, safety, cost })) == expr_vars(
            expr,
        ).filter(|v: VarId| defs.contains_key(v) && defs[v] != safety).len(),
{
    law_var_crossings_counts_differing_uses(defs, safety, expr_vars(expr));
}

/// Law: the variables an expression reads: the variable itself, none for a constant, both
/// operands of a binary operation (in order), the arguments of a call, and the object of a
/// field read.
pub proof fn law_expr_vars_by_variant(e: Expr)
    ensures
        e matches Expr::Var(v) ==> expr_vars(e) == seq![v],
        e matches Expr::Const(_) ==> expr_vars(e).len() == 0,
        e matches Expr::BinOp { lhs, rhs, .. } ==> expr_vars(e).len() == 2 && expr_vars(e)[0]
            == lhs && expr_vars(e)[1] == rhs,
        e matches Expr::Call { args, .. } ==> expr_vars(e) == args@,
        e matches Expr::FieldGet { object, .. } ==> expr_vars(e) == seq![object],
{
}

} // verus!
