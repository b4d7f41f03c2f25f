//! The syntax tree that the transform reads and rewrites.
use vstd::prelude::*;

verus! {

/// An identifier. A `private` one is made by the transform itself and is
/// renamed apart from every identifier the author wrote.
#[derive(Clone, Debug)]
pub struct Ident {
    pub sym: String,
    pub private: bool,
}

#[derive(PartialEq, Eq, Structural, Clone, Copy, Debug)]
pub enum CommentKind {
    Line,
    Block,
}

/// A comment that stands immediately before a site.
#[derive(Clone, Debug)]
pub struct Comment {
    pub kind: CommentKind,
    pub text: String,
}

/// The property of a member access: `o.name` or `o[expr]`.
#[derive(Debug)]
pub enum MemberProp {
    Ident(Ident),
    Computed(Box<Expr>),
}

/// One argument of a call; `spread` marks `...expr`.
#[derive(Debug)]
pub struct Arg {
    pub spread: bool,
    pub expr: Expr,
}

#[derive(Debug)]
pub enum Expr {
    Ident(Ident),
    /// A string literal.
    Str(String),
    /// Any other literal (number, boolean, null, ...).
    Lit,
    Paren(Box<Expr>),
    /// A markup element, with the expressions that stand in its attributes and
    /// children.
    Jsx(Vec<Expr>),
    Member(Box<Expr>, MemberProp),
    Call(Box<Expr>, Vec<Arg>),
    Arrow(Box<ArrowExpr>),
    Fn(Box<FnExpr>),
    /// Any other expression, with its direct subexpressions.
    Other(Vec<Expr>),
}

#[derive(Debug)]
pub enum ArrowBody {
    Block(Vec<Stmt>),
    Expr(Box<Expr>),
}

#[derive(Debug)]
pub struct ArrowExpr {
    pub is_async: bool,
    pub is_generator: bool,
    /// The expressions that stand in the parameters (default values).
    pub params: Vec<Expr>,
    pub body: ArrowBody,
}

/// A function as it stands in a function expression or declaration; `body`
/// is `None` for a bodiless overload signature.
#[derive(Debug)]
pub struct Function {
    pub is_async: bool,
    pub is_generator: bool,
    /// The expressions that stand in the parameters (default values).
    pub params: Vec<Expr>,
    pub body: Option<Vec<Stmt>>,
}

#[derive(Debug)]
pub struct FnExpr {
    pub ident: Option<Ident>,
    pub function: Function,
}

/// A binding pattern: a plain name, or a destructuring pattern.
#[derive(Debug)]
pub enum Pat {
    Ident(Ident),
    Other,
}

#[derive(Debug)]
pub struct VarDeclarator {
    pub name: Pat,
    pub init: Option<Expr>,
}

#[derive(PartialEq, Eq, Structural, Clone, Copy, Debug)]
pub enum VarKind {
    Var,
    Let,
    Const,
}

/// A variable declaration, with the comments that lead it.
#[derive(Debug)]
pub struct VarDecl {
    pub comments: Vec<Comment>,
    pub kind: VarKind,
    pub decls: Vec<VarDeclarator>,
}

/// A function declaration, with the comments that lead it.
#[derive(Debug)]
pub struct FnDecl {
    pub comments: Vec<Comment>,
    pub ident: Ident,
    pub function: Function,
}

#[derive(Debug)]
pub enum Stmt {
    Expr(Expr),
    Return(Option<Expr>),
    Var(VarDecl),
    FnDecl(FnDecl),
    Block(Vec<Stmt>),
    /// `try { .. } finally { .. }`, the finalizer being optional.
    Try(Vec<Stmt>, Option<Vec<Stmt>>),
    Empty,
    /// Any other statement, with its direct subexpressions and substatements.
    Other(Vec<Expr>, Vec<Stmt>),
}

/// `import { imported as local } from "source"`, or `import local from "source"`.
#[derive(Debug)]
pub struct ImportDecl {
    pub local: Ident,
    /// The export imported; `None` imports the default export.
    pub imported: Option<Ident>,
    pub source: String,
}

#[derive(Debug)]
pub enum ModuleItem {
    Import(ImportDecl),
    Stmt(Stmt),
    /// `export <declaration>`.
    Export(Stmt),
}

/// A compilation unit: a module (declarative imports) or a script (dynamic
/// requires).
#[derive(Debug)]
pub enum Program {
    Module(Vec<ModuleItem>),
    Script(Vec<Stmt>),
}

} // verus!
