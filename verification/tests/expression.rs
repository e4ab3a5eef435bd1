use litsdf::expression::{parse, tokenize, Expr, Func, Func2, Op, ParsedExpression, Token};

fn lit(s: &str) -> Expr {
    Expr::Literal(s.to_string())
}

fn shape(e: &Expr) -> String {
    match e {
        Expr::Literal(s) => s.clone(),
        Expr::Var(i) => format!("v{i}"),
        Expr::BinOp(op, a, b) => format!("({:?} {} {})", op, shape(a), shape(b)),
        Expr::Neg(a) => format!("(- {})", shape(a)),
        Expr::Func(f, a) => format!("({:?} {})", f, shape(a)),
        Expr::Func2(f, a, b) => format!("({:?} {} {})", f, shape(a), shape(b)),
    }
}

/// The value of a parsed expression, computed as the program computes it in `f32`.
fn eval(e: &Expr, vars: &[f32]) -> f32 {
    match e {
        Expr::Literal(v) => v.parse::<f32>().unwrap_or(0.0),
        Expr::Var(i) => vars.get(*i).copied().unwrap_or(0.0),
        Expr::BinOp(op, a, b) => {
            let (x, y) = (eval(a, vars), eval(b, vars));
            match op {
                Op::Add => x + y,
                Op::Sub => x - y,
                Op::Mul => x * y,
                Op::Div => if y.abs() < 1e-10 { 0.0 } else { x / y },
                Op::Mod => if y.abs() < 1e-10 { 0.0 } else { x % y },
            }
        }
        Expr::Neg(a) => -eval(a, vars),
        Expr::Func(f, a) => {
            let v = eval(a, vars);
            match f {
                Func::Sin => v.sin(),
                Func::Cos => v.cos(),
                Func::Abs => v.abs(),
                Func::Sqrt => v.max(0.0).sqrt(),
            }
        }
        Expr::Func2(f, a, b) => {
            let (x, y) = (eval(a, vars), eval(b, vars));
            match f {
                Func2::Min => x.min(y),
                Func2::Max => x.max(y),
            }
        }
    }
}

#[test]
fn literal() {
    let p = parse("42.5").unwrap();
    assert!(p.variables.is_empty());
    assert!((eval(&p.ast, &[]) - 42.5).abs() < 0.001);
    assert_eq!(shape(&p.ast), "42.5");
    let _ = lit("0");
}

#[test]
fn arithmetic() {
    let p = parse("3 + 4 * 2").unwrap();
    assert_eq!(shape(&p.ast), format!("({:?} 3 ({:?} 4 2))", Op::Add, Op::Mul));
    assert!((eval(&p.ast, &[]) - 11.0).abs() < 0.001);
}

#[test]
fn variables() {
    let p = parse("a * 0.5 + b").unwrap();
    assert_eq!(p.variables, vec!["a", "b"]);
    assert_eq!(shape(&p.ast), format!("({:?} ({:?} v0 0.5) v1)", Op::Add, Op::Mul));
    assert!((eval(&p.ast, &[10.0, 3.0]) - 8.0).abs() < 0.001);
    let q = parse("b + a + b").unwrap();
    assert_eq!(q.variables, vec!["b", "a"]);
}

#[test]
fn functions() {
    let p = parse("sin(0) + abs(-5)").unwrap();
    assert_eq!(shape(&p.ast), format!("({:?} ({:?} 0) ({:?} (- 5)))", Op::Add, Func::Sin, Func::Abs));
    assert!((eval(&p.ast, &[]) - 5.0).abs() < 0.001);
}

#[test]
fn nested() {
    let p = parse("max(a, min(b, 10))").unwrap();
    assert_eq!(p.variables, vec!["a", "b"]);
    assert_eq!(shape(&p.ast), format!("({:?} v0 ({:?} v1 10))", Func2::Max, Func2::Min));
    assert!((eval(&p.ast, &[5.0, 20.0]) - 10.0).abs() < 0.001);
}

#[test]
fn negation() {
    let p = parse("-a + 1").unwrap();
    assert_eq!(shape(&p.ast), format!("({:?} (- v0) 1)", Op::Add));
    assert!((eval(&p.ast, &[3.0]) - (-2.0)).abs() < 0.001);
}

#[test]
fn left_associative_subtraction_and_modulo() {
    let p = parse("8 - 3 - 1").unwrap();
    assert_eq!(shape(&p.ast), format!("({:?} ({:?} 8 3) 1)", Op::Sub, Op::Sub));
    let q = parse("7 % 4 / 2").unwrap();
    assert_eq!(shape(&q.ast), format!("({:?} ({:?} 7 4) 2)", Op::Div, Op::Mod));
}

#[test]
fn parse_errors() {
    assert_eq!(parse("1 +").err().unwrap(), "Unexpected end of expression");
    assert_eq!(parse("(1").err().unwrap(), "Expected ')'");
    assert_eq!(parse("1 2").err().unwrap(), "Unexpected token at position 1");
    assert_eq!(parse("foo(1)").err().unwrap(), "Unknown function: foo");
    assert_eq!(parse("min(1)").err().unwrap(), "Expected ',' in function call");
    assert_eq!(parse("1 $ 2").err().unwrap(), "Unexpected character: $");
    assert_eq!(parse("1.2.3").err().unwrap(), "Invalid number: 1.2.3");
    assert_eq!(parse("*2").err().unwrap(), "Unexpected token: Op('*')");
    assert_eq!(parse(")").err().unwrap(), "Unexpected token: RParen");
}

#[test]
fn tokens_of_an_expression() {
    let t = tokenize("x1 + (2.5)").unwrap();
    assert_eq!(t.len(), 5);
    assert!(matches!(&t[0], Token::Ident(s) if s == "x1"));
    assert!(matches!(&t[1], Token::Op('+')));
    assert!(matches!(&t[2], Token::LParen));
    assert!(matches!(&t[3], Token::Num(s) if s == "2.5"));
    assert!(matches!(&t[4], Token::RParen));
}

#[test]
fn default_parsed_expression_is_zero() {
    let d = ParsedExpression::default();
    assert!(d.variables.is_empty());
    assert_eq!(shape(&d.ast), "0");
}
