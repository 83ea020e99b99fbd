use trafik::ir::program::{
    accumulate_weights, check_crossings, collect_def_safety, count_boundary_crossings, vars_in_expr,
};
use trafik::ir::{BinOp, Binding, Const, Expr, Placement, Program, Safety, Type};

fn let_(var: u32, expr: Expr, safety: Safety, cost: u32) -> Binding {
    Binding::Let { var, ty: Some(Type::U32), expr, safety, cost }
}

#[test]
fn kernel_only_program_is_placed_in_kernel() {
    let program = Program {
        name: "cwnd",
        bindings: vec![
            let_(0, Expr::FieldGet { object: 9, field: "snd_cwnd" }, Safety::KernelSafe, 3),
            let_(1, Expr::Const(Const::U64(2)), Safety::KernelSafe, 1),
            let_(2, Expr::BinOp { op: BinOp::Mul, lhs: 0, rhs: 1 }, Safety::KernelSafe, 1),
        ],
        result: 2,
    };
    let report = program.placement_report();
    assert_eq!(report.weight, 0);
    assert_eq!(report.boundary_values, 0);
    assert_eq!(report.place, Placement::FullKernel);
}

#[test]
fn empty_program_is_placed_in_kernel() {
    let program = Program { name: "empty", bindings: vec![], result: 0 };
    let report = program.placement_report();
    assert_eq!(report.weight, 0);
    assert_eq!(report.boundary_values, 0);
    assert_eq!(report.place, Placement::FullKernel);
}

#[test]
fn free_user_only_binding_counts_crossings() {
    // A user-only binding of cost 0 adds no weight, but its uses from the kernel cross.
    let program = Program {
        name: "mixed",
        bindings: vec![
            let_(0, Expr::Const(Const::I64(-1)), Safety::UserOnly, 0),
            let_(1, Expr::Var(0), Safety::KernelSafe, 1),
            let_(2, Expr::BinOp { op: BinOp::Add, lhs: 0, rhs: 0 }, Safety::KernelSafe, 1),
            let_(3, Expr::Call { func: "f", args: vec![0, 1, 2, 7] }, Safety::UserOnly, 0),
        ],
        result: 3,
    };
    let report = program.placement_report();
    assert_eq!(report.weight, 0);
    // var 0 used by 1 (cross), twice by 2 (2 crossings); 3 uses 0 (same), 1 and 2 (2
    // crossings), 7 undefined (none).
    assert_eq!(report.boundary_values, 5);
    assert_eq!(report.place, Placement::FullKernel);
}

#[test]
fn nested_bindings_are_visited() {
    let program = Program {
        name: "nested",
        bindings: vec![
            let_(0, Expr::Const(Const::Bool(true)), Safety::KernelSafe, 1),
            Binding::If {
                cond: 0,
                then_bindings: vec![let_(1, Expr::Var(0), Safety::UserOnly, 0)],
                else_bindings: vec![Binding::For {
                    var: 2,
                    bound: 0,
                    body: vec![let_(3, Expr::Var(1), Safety::KernelSafe, 1)],
                }],
            },
            let_(4, Expr::FieldGet { object: 3, field: "x" }, Safety::UserOnly, 0),
        ],
        result: 4,
    };
    let report = program.placement_report();
    // 1 uses 0 (cross), 3 uses 1 (cross), 4 uses 3 (cross).
    assert_eq!(report.boundary_values, 3);
    assert_eq!(report.weight, 0);
}

#[test]
fn later_definition_replaces_earlier() {
    // Variable 0 is defined kernel-side, then redefined user-side; its uses are judged
    // against the last definition, even uses that come before it.
    let program = Program {
        name: "redef",
        bindings: vec![
            let_(0, Expr::Const(Const::U64(1)), Safety::KernelSafe, 1),
            let_(1, Expr::Var(0), Safety::KernelSafe, 1),
            let_(0, Expr::Const(Const::U64(2)), Safety::UserOnly, 0),
            let_(2, Expr::Var(0), Safety::UserOnly, 0),
        ],
        result: 2,
    };
    let report = program.placement_report();
    assert_eq!(report.boundary_values, 1);
}

#[test]
fn uniform_user_only_program_has_no_crossings() {
    let program = Program {
        name: "user",
        bindings: vec![
            let_(0, Expr::Const(Const::U64(1)), Safety::UserOnly, 0),
            let_(1, Expr::BinOp { op: BinOp::Shl, lhs: 0, rhs: 0 }, Safety::UserOnly, 0),
            Binding::For {
                var: 5,
                bound: 1,
                body: vec![let_(2, Expr::Call { func: "g", args: vec![0, 1] }, Safety::UserOnly, 0)],
            },
        ],
        result: 2,
    };
    assert_eq!(program.placement_report().boundary_values, 0);
}

#[test]
fn user_weight_sums_nested_user_only_costs() {
    let bindings = vec![
        let_(0, Expr::Const(Const::U64(1)), Safety::UserOnly, 5),
        let_(1, Expr::Var(0), Safety::KernelSafe, 100),
        Binding::If {
            cond: 1,
            then_bindings: vec![let_(2, Expr::Var(0), Safety::UserOnly, 7)],
            else_bindings: vec![Binding::For {
                var: 3,
                bound: 1,
                body: vec![
                    let_(4, Expr::Var(0), Safety::UserOnly, 11),
                    let_(5, Expr::Var(0), Safety::KernelSafe, 13),
                ],
            }],
        },
    ];
    let mut weight = 1;
    accumulate_weights(&bindings, &mut weight);
    assert_eq!(weight, 1 + 5 + 7 + 11);
}

#[test]
fn kernel_safe_bindings_weigh_nothing() {
    let bindings = vec![
        let_(0, Expr::Const(Const::U64(1)), Safety::KernelSafe, 5),
        Binding::For { var: 1, bound: 0, body: vec![let_(2, Expr::Var(0), Safety::KernelSafe, 9)] },
    ];
    let mut weight = 0;
    accumulate_weights(&bindings, &mut weight);
    assert_eq!(weight, 0);
    assert_eq!(count_boundary_crossings(&bindings), 0);
}

#[test]
fn expression_variables() {
    assert_eq!(vars_in_expr(&Expr::Var(3)), vec![3]);
    assert_eq!(vars_in_expr(&Expr::Const(Const::Bool(false))), Vec::<u32>::new());
    assert_eq!(vars_in_expr(&Expr::BinOp { op: BinOp::Lt, lhs: 4, rhs: 4 }), vec![4, 4]);
    assert_eq!(vars_in_expr(&Expr::Call { func: "h", args: vec![9, 1, 9] }), vec![9, 1, 9]);
    assert_eq!(vars_in_expr(&Expr::FieldGet { object: 2, field: "rtt" }), vec![2]);
}

#[test]
fn crossings_with_user_weight() {
    let bindings = vec![
        let_(0, Expr::Const(Const::U64(1)), Safety::UserOnly, 5),
        let_(1, Expr::BinOp { op: BinOp::Div, lhs: 0, rhs: 0 }, Safety::KernelSafe, 1),
    ];
    assert_eq!(count_boundary_crossings(&bindings), 2);
}

#[test]
fn weight_adds_up_and_ignores_order() {
    let a = vec![
        let_(0, Expr::Const(Const::U64(1)), Safety::UserOnly, 2),
        let_(1, Expr::Var(0), Safety::KernelSafe, 40),
    ];
    let b = vec![
        Binding::For { var: 2, bound: 1, body: vec![let_(3, Expr::Var(1), Safety::UserOnly, 5)] },
        let_(4, Expr::Var(3), Safety::UserOnly, 7),
    ];
    let mut wa = 0;
    accumulate_weights(&a, &mut wa);
    let mut wb = 0;
    accumulate_weights(&b, &mut wb);
    let ab: Vec<Binding> = vec![
        let_(0, Expr::Const(Const::U64(1)), Safety::UserOnly, 2),
        let_(1, Expr::Var(0), Safety::KernelSafe, 40),
        Binding::For { var: 2, bound: 1, body: vec![let_(3, Expr::Var(1), Safety::UserOnly, 5)] },
        let_(4, Expr::Var(3), Safety::UserOnly, 7),
    ];
    let mut wab = 0;
    accumulate_weights(&ab, &mut wab);
    assert_eq!(wab, wa + wb);
    assert_eq!(wab, 14);
    let reordered: Vec<Binding> = vec![
        let_(4, Expr::Var(3), Safety::UserOnly, 7),
        let_(1, Expr::Var(0), Safety::KernelSafe, 40),
        Binding::For { var: 2, bound: 1, body: vec![let_(3, Expr::Var(1), Safety::UserOnly, 5)] },
        let_(0, Expr::Const(Const::U64(1)), Safety::UserOnly, 2),
    ];
    let mut wr = 0;
    accumulate_weights(&reordered, &mut wr);
    assert_eq!(wr, wab);

    // Crossings add up against the same definitions.
    let mut defs = std::collections::HashMap::new();
    collect_def_safety(&ab, &mut defs);
    let (mut ca, mut cb, mut cab) = (0, 0, 0);
    check_crossings(&a, &defs, &mut ca);
    check_crossings(&b, &defs, &mut cb);
    check_crossings(&ab, &defs, &mut cab);
    assert_eq!(cab, ca + cb);
    assert_eq!(cab, 2);

    // Collecting the same definitions again changes nothing.
    let once = defs.clone();
    collect_def_safety(&ab, &mut defs);
    assert_eq!(defs, once);
}
