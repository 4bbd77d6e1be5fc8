use asena::lexer::Lexer;

#[test]
fn parser_it_works() {
    let code = "let combine = [x, MonadIO m, F a, C] => (a: m a) -> [b: m b] -> m c in todo";

    let _stream = Lexer::new(code);
}

#[test]
fn sig_decl() {
    let code = "cond : (f true) -> ((f false) -> (f cond));";

    let _stream = Lexer::new(code);
}

#[test]
fn lam_expr() {
    let code = "\\a b -> c";

    let _stream = Lexer::new(code);
}

#[test]
fn sigma_expr() {
    let code = "[a: t] -> b";

    let _stream = Lexer::new(code);
}

#[test]
fn unicode_expr() {
    let code = "Π (d: t) -> e";

    let _stream = Lexer::new(code);
}

#[test]
fn group_expr() {
    let code = "[Monad m] => m a";

    let _stream = Lexer::new(code);
}

#[test]
fn pi_expr() {
    let code = "(a: t) -> b";

    let _lexer = Lexer::new(code);
}

#[test]
fn ask_stmt() {
    let code = "do { (Just a) <- findUser 105; }";

    let _lexer = Lexer::new(code);
}
