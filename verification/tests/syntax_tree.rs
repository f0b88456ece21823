use yuck_syntax::ast::atom::Atom;
use yuck_syntax::ast::binary_operation::{BinaryOperation, BinaryOperator};
use yuck_syntax::ast::comparison_operation::{ComparisonOperation, ComparisonOperator};
use yuck_syntax::ast::convert_all;
use yuck_syntax::ast::def_listen::{DefListen, DefListenArg, DefListenArgValue};
use yuck_syntax::ast::def_poll::{DefPoll, DefPollArg, DefPollArgValue};
use yuck_syntax::ast::def_var::{DefVar, DefVarValue};
use yuck_syntax::ast::def_widget::{DefWidget, DefWidgetChild, DefWidgetParam};
use yuck_syntax::ast::def_window::{DefWindow, DefWindowArg, DefWindowArgValue, DefWindowContent};
use yuck_syntax::ast::expr::PrimitiveExpr;
use yuck_syntax::ast::function_call::FunctionCall;
use yuck_syntax::ast::inclusion::Include;
use yuck_syntax::ast::literal::{Literal, LiteralArg, LiteralArgValue};
use yuck_syntax::ast::symbol::Symbol;
use yuck_syntax::ast::ternary_operation::TernaryOperation;
use yuck_syntax::ast::top_level_expr::TopLevelExpr;
use yuck_syntax::ast::unary_operation::UnaryOperation;
use yuck_syntax::ast::widget_call::{
    WidgetCall, WidgetCallArg, WidgetCallArgName, WidgetCallArgValue, WidgetCallChild,
};
use yuck_syntax::spanned::{SourceSpan, Spanned};

#[test]
fn spans_convert_from_tuples() {
    assert_eq!(Spanned::from((1, 7)), Spanned(1, (), 7));
    assert_eq!(Spanned::from((3, "x", 4)), Spanned(3, "x", 4));
    let keyword: Spanned<()> = (14, 20).into();
    assert_eq!((keyword.0, keyword.2), (14, 20));
    assert_eq!(SourceSpan::from((44, 3)), SourceSpan::new(44, 3));
    assert_eq!(SourceSpan::new(44, 3).offset, 44);
    assert_eq!(SourceSpan::new(44, 3).length, 3);
}

#[test]
fn map_keeps_the_span() {
    let name = Spanned(8, "foo", 11);
    assert_eq!(name.map(|text| text.len()), Spanned(8, 3, 11));
    let symbol = Spanned(8, "foo", 11).map(Symbol::from);
    assert_eq!(symbol, Spanned(8, Symbol("foo".to_owned()), 11));
}

#[test]
fn symbols_and_atoms_convert_from_plain_values() {
    assert_eq!(Symbol::new("foo"), Symbol("foo".to_owned()));
    assert_eq!(Symbol::new(String::from("bar123")), Symbol("bar123".to_owned()));
    assert_eq!(Symbol::from("foo"), Symbol::new("foo"));

    assert_eq!(Atom::new_number("5"), Atom::Number("5".to_owned()));
    assert_eq!(Atom::from("bar"), Atom::StrLit("bar".to_owned()));
    assert_eq!(Atom::from(true), Atom::Bool(true));
    assert_eq!(Atom::from(false), Atom::Bool(false));
    assert_eq!(
        Atom::from(Symbol::new("x")),
        Atom::Symbol(Symbol("x".to_owned()))
    );
    assert_ne!(Atom::from("5"), Atom::new_number("5"));
}

#[test]
fn expressions_convert_from_their_parts() {
    assert_eq!(
        PrimitiveExpr::from(true),
        PrimitiveExpr::Atom(Atom::Bool(true))
    );
    assert_eq!(
        PrimitiveExpr::from("content"),
        PrimitiveExpr::Atom(Atom::StrLit("content".to_owned()))
    );
    assert_eq!(
        PrimitiveExpr::from(Atom::new_number("6")),
        PrimitiveExpr::Atom(Atom::Number("6".to_owned()))
    );

    let not: PrimitiveExpr = UnaryOperation::new_not(false).into();
    assert_eq!(
        not,
        PrimitiveExpr::UnaryOperation(UnaryOperation::Not(Box::new(PrimitiveExpr::Atom(
            Atom::Bool(false)
        ))))
    );

    let call = FunctionCall::new("trim", vec!["hello".into()]);
    assert_eq!(call.name, Symbol::new("trim"));
    assert_eq!(call.args, vec![PrimitiveExpr::from("hello")]);
    assert_eq!(
        PrimitiveExpr::from(FunctionCall::new(Symbol::new("trim"), Vec::new())),
        PrimitiveExpr::FunctionCall(FunctionCall {
            name: Symbol::new("trim"),
            args: Vec::new()
        })
    );

    let ternary = TernaryOperation::new(true, Atom::new_number("5"), Atom::new_number("6"));
    assert_eq!(*ternary.cond, PrimitiveExpr::from(true));
    assert_eq!(*ternary.true_branch, PrimitiveExpr::from(Atom::new_number("5")));
    assert_eq!(*ternary.false_branch, PrimitiveExpr::from(Atom::new_number("6")));
    assert!(matches!(
        PrimitiveExpr::from(ternary),
        PrimitiveExpr::TernaryOperation(_)
    ));
    assert_ne!(PrimitiveExpr::Error, PrimitiveExpr::from(false));
}

#[test]
fn operations_keep_operator_and_operands() {
    let sum = BinaryOperation::new(
        (0, Atom::new_number("1").into(), 1),
        BinaryOperator::Add,
        (4, Atom::new_number("2").into(), 5),
    );
    assert_eq!(
        *sum.lhs,
        Spanned(0, PrimitiveExpr::Atom(Atom::Number("1".to_owned())), 1)
    );
    assert_eq!(sum.op, BinaryOperator::Add);
    assert_eq!(
        *sum.rhs,
        Spanned(4, PrimitiveExpr::Atom(Atom::Number("2".to_owned())), 5)
    );
    assert!(matches!(
        PrimitiveExpr::from(sum),
        PrimitiveExpr::BinaryOperation(_)
    ));

    let greater = ComparisonOperation::new(
        (0, PrimitiveExpr::from(true), 4),
        ComparisonOperator::Gt,
        (7, PrimitiveExpr::from(false), 12),
    );
    assert_eq!(
        greater,
        ComparisonOperation::new(
            Spanned(0, PrimitiveExpr::from(true), 4),
            ComparisonOperator::Gt,
            Spanned(7, PrimitiveExpr::from(false), 12),
        )
    );
    assert_ne!(
        greater,
        ComparisonOperation::new(
            (0, PrimitiveExpr::from(true), 4),
            ComparisonOperator::Gte,
            (7, PrimitiveExpr::from(false), 12),
        )
    );
    assert!(matches!(
        PrimitiveExpr::from(greater),
        PrimitiveExpr::ComparisonOperation(_)
    ));
}

#[test]
fn definitions_are_built_from_their_parts() {
    let var = DefVar::new(
        (14, 20),
        (21, "foo".into(), 24),
        Spanned::from((25, Atom::from("bar"), 30)),
    );
    assert_eq!(
        var,
        DefVar {
            keyword: Spanned(14, (), 20),
            name: Spanned(21, Symbol("foo".to_owned()), 24),
            value: DefVarValue::Atom(Spanned(25, Atom::StrLit("bar".to_owned()), 30)),
        }
    );
    assert_eq!(TopLevelExpr::from(var.clone()), TopLevelExpr::DefVar(var));

    let poll = DefPoll::new(
        (85, (), 92),
        (93, "volume".into(), 99),
        vec![DefPollArg::new(
            (101, "interval".into(), 109),
            Spanned::from((110, Atom::from("1s"), 114)),
        )],
        (115, "scripts/getvol".into(), 131),
    );
    assert_eq!(
        poll,
        DefPoll {
            keyword: Spanned(85, (), 92),
            name: Spanned(93, Symbol("volume".to_owned()), 99),
            args: vec![DefPollArg {
                name: Spanned(101, Symbol("interval".to_owned()), 109),
                value: DefPollArgValue::Atom(Spanned(110, Atom::StrLit("1s".to_owned()), 114)),
            }],
            script: Spanned(115, "scripts/getvol".to_owned(), 131),
        }
    );
    assert_eq!(TopLevelExpr::from(poll.clone()), TopLevelExpr::DefPoll(poll));

    let listen = DefListen::new(
        (1, (), 10),
        (11, "foo".into(), 14),
        vec![DefListenArg::new(
            (16, "initial".into(), 23),
            Spanned::from((24, Atom::from("whatever"), 34)),
        )],
        (51, "tail -F /tmp/some_file".into(), 75),
    );
    assert_eq!(listen.keyword, Spanned(1, (), 10));
    assert_eq!(listen.name, Spanned(11, Symbol::new("foo"), 14));
    assert_eq!(
        listen.args,
        vec![DefListenArg {
            name: Spanned(16, Symbol::new("initial"), 23),
            value: DefListenArgValue::Atom(Spanned(24, Atom::from("whatever"), 34)),
        }]
    );
    assert_eq!(
        listen.script,
        Spanned(51, "tail -F /tmp/some_file".to_owned(), 75)
    );
    assert_eq!(
        TopLevelExpr::from(listen.clone()),
        TopLevelExpr::DefListen(listen)
    );

    let inclusion = Include::new((1, 8), (9, "my_file.yuck".into(), 23));
    assert_eq!(
        inclusion,
        Include {
            keyword: Spanned(1, (), 8),
            path: Spanned(9, "my_file.yuck".to_owned(), 23),
        }
    );
    assert_eq!(
        TopLevelExpr::from(inclusion.clone()),
        TopLevelExpr::Include(inclusion)
    );
}

#[test]
fn literal_arguments_hold_strings_or_symbols() {
    let literal = Literal::new(
        (1, 8),
        vec![
            LiteralArg::new(
                (10, "content".into(), 17),
                Spanned::from((18, "(button 'foo')".to_owned(), 34)),
            ),
            LiteralArg::new(
                (36, "other".into(), 41),
                Spanned::from((42, Symbol::new("yuck"), 46)),
            ),
        ],
    );
    assert_eq!(literal.keyword, Spanned(1, (), 8));
    assert_eq!(
        literal.args,
        vec![
            LiteralArg {
                name: Spanned(10, Symbol::new("content"), 17),
                value: LiteralArgValue::String(Spanned(18, "(button 'foo')".to_owned(), 34)),
            },
            LiteralArg {
                name: Spanned(36, Symbol::new("other"), 41),
                value: LiteralArgValue::Symbol(Spanned(42, Symbol::new("yuck"), 46)),
            },
        ]
    );
    assert_eq!(
        TopLevelExpr::from(literal.clone()),
        TopLevelExpr::Literal(literal)
    );
}

#[test]
fn widgets_nest_and_keep_their_order() {
    let inner = WidgetCall::new(
        (514, "sidestuff".into(), 523),
        Vec::<WidgetCallArg>::new(),
        Vec::<WidgetCallChild>::new(),
    );
    let outer = WidgetCall::new(
        (444, "metric".into(), 450),
        vec![WidgetCallArg::new(
            Spanned(452, "align".into(), 457),
            Spanned(458, "center".into(), 466),
        )],
        vec![
            Spanned::from((487, Atom::from("hey"), 492)).into(),
            Spanned::from((513, inner.clone(), 524)).into(),
        ],
    );
    assert_eq!(outer.name, Spanned(444, Symbol::new("metric"), 450));
    assert_eq!(
        outer.args,
        vec![WidgetCallArg {
            name: WidgetCallArgName::Name(Spanned(452, Symbol::new("align"), 457)),
            value: WidgetCallArgValue::Atom(Spanned(458, Atom::from("center"), 466)),
        }]
    );
    assert_eq!(
        outer.children,
        vec![
            WidgetCallChild::Atom(Spanned(487, Atom::from("hey"), 492)),
            WidgetCallChild::WidgetCall(Spanned(513, inner, 524)),
        ]
    );
    assert_eq!(outer.clone(), outer);
    assert_eq!(outer.children[1].clone(), outer.children[1]);

    let widget = DefWidget::new(
        (1, (), 10),
        (11, "bar".into(), 14),
        vec![
            DefWidgetParam::new((16, "foo".into(), 19), false),
            DefWidgetParam::new((21, "name".into(), 25), true),
        ],
        vec![Spanned::from((45, outer.clone(), 246))],
    );
    assert_eq!(widget.keyword, Spanned(1, (), 10));
    assert_eq!(widget.name, Spanned(11, Symbol::new("bar"), 14));
    assert_eq!(
        widget.params,
        vec![
            DefWidgetParam {
                name: Spanned(16, Symbol::new("foo"), 19),
                is_optional: false
            },
            DefWidgetParam {
                name: Spanned(21, Symbol::new("name"), 25),
                is_optional: true
            },
        ]
    );
    assert_eq!(
        widget.children,
        vec![DefWidgetChild::WidgetCall(Spanned(45, outer.clone(), 246))]
    );
    assert_eq!(
        TopLevelExpr::from(widget.clone()),
        TopLevelExpr::DefWidget(widget)
    );

    let window = DefWindow::new(
        (400, 409),
        (410, "bar".into(), 413),
        vec![
            DefWindowArg::new(
                (415, "type".into(), 419),
                Spanned::from((420, Atom::from("dock"), 426)),
            ),
            DefWindowArg::new(
                (428, "widget".into(), 434),
                Spanned::from((435, outer.clone(), 440)),
            ),
        ],
        vec![
            DefWindowContent::from(Spanned::from((443, outer.clone(), 525))),
            DefWindowContent::from(Spanned::from((526, Atom::from(true), 530))),
        ],
    );
    assert_eq!(window.keyword, Spanned(400, (), 409));
    assert_eq!(
        window.args,
        vec![
            DefWindowArg {
                name: Spanned(415, Symbol::new("type"), 419),
                value: DefWindowArgValue::Atom(Spanned(420, Atom::from("dock"), 426)),
            },
            DefWindowArg {
                name: Spanned(428, Symbol::new("widget"), 434),
                value: DefWindowArgValue::WidgetCall(Spanned(435, outer.clone(), 440)),
            },
        ]
    );
    assert_eq!(
        window.content,
        vec![
            DefWindowContent::WidgetCall(Spanned(443, outer, 525)),
            DefWindowContent::Atom(Spanned(526, Atom::Bool(true), 530)),
        ]
    );
    assert_eq!(
        TopLevelExpr::from(window.clone()),
        TopLevelExpr::DefWindow(window)
    );
}

#[test]
fn copies_of_nested_calls_hold_the_same() {
    let innermost = WidgetCall::new(
        (30, "label".into(), 35),
        vec![WidgetCallArg::new(
            Spanned(37, "text".into(), 41),
            Spanned(42, Atom::new_number("7"), 43),
        )],
        vec![Spanned::from((44, Atom::from(true), 48)).into()],
    );
    let inner = WidgetCall::new(
        (20, "box".into(), 23),
        vec![
            WidgetCallArg::new(WidgetCallArgName::Error, Spanned(25, Atom::from("x"), 28)),
            WidgetCallArg::new(Spanned(29, "y".into(), 30), WidgetCallArgValue::Error),
        ],
        vec![
            Spanned::from((29, innermost, 49)).into(),
            Spanned::from((50, Atom::from(Symbol::new("z")), 51)).into(),
        ],
    );
    let outer = WidgetCall::new(
        (1, "window".into(), 7),
        Vec::new(),
        vec![
            Spanned::from((8, Atom::from("first"), 15)).into(),
            Spanned::from((19, inner, 52)).into(),
        ],
    );

    let copy = outer.clone();
    assert_eq!(copy, outer);
    assert_eq!(copy.name, Spanned(1, Symbol::new("window"), 7));
    assert_eq!(copy.args, Vec::new());
    assert_eq!(copy.children.len(), 2);
    assert_eq!(
        copy.children[0],
        WidgetCallChild::Atom(Spanned(8, Atom::from("first"), 15))
    );
    match &copy.children[1] {
        WidgetCallChild::WidgetCall(Spanned(19, nested, 52)) => {
            assert_eq!(nested.name, Spanned(20, Symbol::new("box"), 23));
            assert_eq!(nested.args.len(), 2);
            assert_eq!(nested.args[0].name, WidgetCallArgName::Error);
            assert_eq!(nested.args[1].value, WidgetCallArgValue::Error);
            assert_eq!(nested.children.len(), 2);
            match &nested.children[0] {
                WidgetCallChild::WidgetCall(Spanned(29, deepest, 49)) => {
                    assert_eq!(deepest.name, Spanned(30, Symbol::new("label"), 35));
                    assert_eq!(
                        deepest.children,
                        vec![WidgetCallChild::Atom(Spanned(44, Atom::Bool(true), 48))]
                    );
                }
                other => panic!("expected a nested call, got {:?}", other),
            }
        }
        other => panic!("expected a nested call, got {:?}", other),
    }
    assert_eq!(copy.children[1].clone(), outer.children[1]);
}

#[test]
fn argument_placeholders_differ_from_every_valid_part() {
    let broken = WidgetCallArg::new(WidgetCallArgName::Error, WidgetCallArgValue::Error);
    assert_eq!(broken.name, WidgetCallArgName::Error);
    assert_eq!(broken.value, WidgetCallArgValue::Error);
    assert_ne!(
        broken.name,
        WidgetCallArgName::from(Spanned(9, Symbol::new("name"), 13))
    );
    assert_ne!(
        broken.value,
        WidgetCallArgValue::from(Spanned(10, Atom::from("foo"), 15))
    );

    let half = WidgetCallArg::new(Spanned(9, "name".into(), 13), WidgetCallArgValue::Error);
    assert_eq!(
        half.name,
        WidgetCallArgName::Name(Spanned(9, Symbol::new("name"), 13))
    );
    assert_eq!(half.value, WidgetCallArgValue::Error);
}

#[test]
fn lists_convert_item_by_item() {
    let texts = vec!["a", "b", "c"];
    let symbols: Vec<Symbol> = convert_all(texts);
    assert_eq!(
        symbols,
        vec![Symbol::new("a"), Symbol::new("b"), Symbol::new("c")]
    );
    assert_eq!(convert_all::<bool, Atom>(Vec::new()), Vec::<Atom>::new());
}
