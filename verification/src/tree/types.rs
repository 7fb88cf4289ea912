//! Type expressions and their recursive-descent parser.

use super::grammar::{
    lemma_basic_settled, lemma_fun_settled, lemma_params_settled, lemma_type_settled, parse_basic, parse_fun, parse_params,
    parse_params_from, parse_type, Parsed, Phases, TypeTree,
};
use super::{lemma_next_significant, next_non_space, next_significant, ParseError};
use crate::cursor::{CursorState, StringCursor};
use crate::location::Locational;
use crate::token::keyword::Keyword;
use crate::token::scan::lemma_scan;
use crate::token::symbol::{Bracket, Symbol};
use crate::token::TokenType;
use std::ops::ControlFlow;
use vstd::prelude::*;

verus! {

/// A type expression.
#[derive(Debug, PartialEq, Eq)]
pub enum Type {
    /// A named type applied to zero or more type arguments.
    Basic { name: String, parameters: Vec<Type> },
    /// A function type: meta parameters, value parameters, return type.
    Fun { meta_parameters: Vec<Type>, value_parameters: Vec<Type>, return_type: Box<Type> },
    /// The type of a type, written with `typeof`.
    Meta { base_type: Box<Type> },
    /// No type stands here: the parser declined without reading a token.
    Empty,
}

/// The trees of a sequence of types, in order.
pub open spec fn trees(types: Seq<Type>) -> Seq<TypeTree>
    decreases types,
{
    Seq::new(
        types.len(),
        |i: int|
            if 0 <= i < types.len() {
                types[i].tree()
            } else {
                TypeTree::Empty
            },
    )
}

impl Type {
    /// The type as plain values.
    pub open spec fn tree(&self) -> TypeTree
        decreases self,
    {
        match self {
            Type::Basic { name, parameters } => TypeTree::Basic {
                name: name@,
                parameters: trees(parameters@),
            },
            Type::Fun { meta_parameters, value_parameters, return_type } => TypeTree::Fun {
                meta_parameters: trees(meta_parameters@),
                value_parameters: trees(value_parameters@),
                return_type: Box::new(return_type.tree()),
            },
            Type::Meta { base_type } => TypeTree::Meta { base_type: Box::new(base_type.tree()) },
            Type::Empty => TypeTree::Empty,
        }
    }
}

impl View for Type {
    type V = TypeTree;

    open spec fn view(&self) -> TypeTree {
        self.tree()
    }
}

/// No types have no trees.
pub proof fn lemma_trees_empty()
    ensures
        trees(Seq::<Type>::empty()) == Seq::<TypeTree>::empty(),
{
    assert(trees(Seq::<Type>::empty()) =~= Seq::<TypeTree>::empty());
}

/// The trees of a sequence with one more type are the trees of the sequence
/// with one more tree.
pub proof fn lemma_trees_push(types: Seq<Type>, last: Type)
    ensures
        trees(types.push(last)) == trees(types).push(last@),
{
    assert(trees(types.push(last)) =~= trees(types).push(last@));
}

/// How a step of the type parser relates the cursor before it, the cursor
/// after it and the located outcome to what the grammar says of that step:
/// both cursors are well formed, the cursor is left where the grammar says,
/// not before the place it was at, with nothing pending; the span is the one
/// the grammar gives, is ordered and ends at the cursor; and the outcome is a
/// type with the tree, or an error with the failure, that the grammar gives.
pub open spec fn type_outcome(
    pre: CursorState,
    post: CursorState,
    r: Locational<Result<Type, ParseError>>,
    p: Parsed<TypeTree>,
) -> bool {
    &&& pre.wf()
    &&& post.wf()
    &&& post == (CursorState { src: pre.src, idx: p.cursor, start: p.cursor })
    &&& pre.idx <= post.idx
    &&& r.loc.start == p.start
    &&& r.loc.end == p.end
    &&& r.loc.start <= r.loc.end == post.idx
    &&& match p.value {
        Ok(tree) => r.t matches Ok(ty) && ty@ == tree,
        Err(failure) => r.t matches Err(error) && error@ == failure,
    }
}

/// The same for a step that parses a parameter list.
pub open spec fn list_outcome(
    pre: CursorState,
    post: CursorState,
    r: Locational<Result<(Vec<Type>, Vec<Type>), ParseError>>,
    p: Parsed<Phases>,
) -> bool {
    &&& pre.wf()
    &&& post.wf()
    &&& post == (CursorState { src: pre.src, idx: p.cursor, start: p.cursor })
    &&& pre.idx <= post.idx
    &&& r.loc.start == p.start
    &&& r.loc.end == p.end
    &&& r.loc.start <= r.loc.end == post.idx
    &&& match p.value {
        Ok(phases) => r.t matches Ok(lists) && trees(lists.0@) == phases.0 && trees(lists.1@)
            == phases.1,
        Err(failure) => r.t matches Err(error) && error@ == failure,
    }
}

impl Type {
    /// Parses one type at the cursor. Where no type begins, the token found
    /// is left unread and the result is `Empty`.
    pub fn from_cursor(cursor: &mut StringCursor) -> (r: Locational<Result<Self, ParseError>>)
        ensures
            type_outcome(
                old(cursor)@,
                final(cursor)@,
                r,
                parse_type(old(cursor)@.src, old(cursor)@.idx),
            ),
        decreases old(cursor)@.src.len() - old(cursor)@.idx, 0nat,
    {
        let ghost src = cursor@.src;
        let ghost pos = cursor@.idx;
        let found = match next_non_space(cursor).branch() {
            ControlFlow::Continue(found) => found,
            ControlFlow::Break(residual) => {
                return Locational::from_residual(residual);
            },
        };
        proof {
            lemma_next_significant(src, pos);
        }
        let Locational { loc, t: token } = found;
        let startidx = loc.start;
        match token.value {
            TokenType::Keyword(Keyword::Typeof) => {
                match Self::from_cursor(cursor).branch() {
                    ControlFlow::Continue(base) => Locational::from(
                        startidx,
                        cursor.position(),
                        Ok(Type::Meta { base_type: Box::new(base.t) }),
                    ),
                    ControlFlow::Break(residual) => Locational::from_loc(
                        residual.loc,
                        Err(residual.t),
                    ),
                }
            },
            TokenType::Keyword(Keyword::Fun) => Self::extract_fun(cursor, startidx),
            TokenType::Identifier => Self::extract_basic(cursor, token.src.as_str(), startidx),
            TokenType::Eof => Locational::from_loc(
                loc,
                Err(ParseError::UnexpectedToken(token, "a type".to_owned())),
            ),
            _ => {
                cursor.restore(startidx);
                Locational::from(startidx, startidx, Ok(Type::Empty))
            },
        }
    }

    /// Parses a parameter list whose `(` has just been read, through its
    /// `)`, into meta parameters and value parameters.
    fn extract_param_list(cursor: &mut StringCursor, multi_phase: bool) -> (r: Locational<
        Result<(Vec<Type>, Vec<Type>), ParseError>,
    >)
        ensures
            list_outcome(
                old(cursor)@,
                final(cursor)@,
                r,
                parse_params(old(cursor)@.src, old(cursor)@.idx, multi_phase),
            ),
        decreases old(cursor)@.src.len() - old(cursor)@.idx, 2nat,
    {
        let ghost src = cursor@.src;
        let ghost pos = cursor@.idx;
        let first = match next_non_space(cursor).branch() {
            ControlFlow::Continue(first) => first,
            ControlFlow::Break(residual) => {
                return Locational::from_residual(residual);
            },
        };
        proof {
            lemma_next_significant(src, pos);
            lemma_trees_empty();
        }
        let Locational { loc, t: token } = first;
        let startidx = loc.start;
        match token.value {
            TokenType::Symbol(Symbol::BracketClose(Bracket::Paren)) => {
                return Locational::from_loc(loc, Ok((Vec::new(), Vec::new())));
            },
            TokenType::Eof => {
                return Locational::from_loc(
                    loc,
                    Err(ParseError::UnexpectedToken(token, "a type or `)`".to_owned())),
                );
            },
            _ => {
                cursor.restore(startidx);
            },
        }
        let mut meta_parameters: Vec<Type> = Vec::new();
        let mut value_parameters: Vec<Type> = Vec::new();
        let mut phased = multi_phase;
        let ghost whole = parse_params(src, pos, multi_phase);
        loop
            invariant
                old(cursor)@.wf(),
                src == old(cursor)@.src,
                pos == old(cursor)@.idx,
                cursor@.wf(),
                cursor@ == (CursorState { src, idx: cursor@.idx, start: cursor@.idx }),
                pos <= startidx <= cursor@.idx,
                whole == parse_params(src, pos, multi_phase),
                whole == parse_params_from(
                    src,
                    cursor@.idx,
                    startidx as int,
                    trees(meta_parameters@),
                    trees(value_parameters@),
                    phased,
                ),
            decreases src.len() - cursor@.idx,
        {
            let ghost at = cursor@.idx;
            proof {
                lemma_type_settled(src, at);
                lemma_trees_empty();
            }
            let param = match Self::from_cursor(cursor).branch() {
                ControlFlow::Continue(param) => param,
                ControlFlow::Break(residual) => {
                    return Locational::from_loc(residual.loc, Err(residual.t));
                },
            };
            match param.t {
                Type::Empty => {
                    proof {
                        lemma_scan(src, cursor@.idx);
                    }
                    let close = match cursor.next_token().branch() {
                        ControlFlow::Continue(close) => close,
                        ControlFlow::Break(residual) => {
                            return Locational::from_residual(residual);
                        },
                    };
                    match close.t.value {
                        TokenType::Symbol(Symbol::BracketClose(Bracket::Paren)) => {
                            return Locational::from(
                                startidx,
                                cursor.position(),
                                Ok((meta_parameters, value_parameters)),
                            );
                        },
                        _ => {
                            return Locational::from_loc(
                                close.loc,
                                Err(
                                    ParseError::UnexpectedToken(
                                        close.t,
                                        "a type or `,`".to_owned(),
                                    ),
                                ),
                            );
                        },
                    }
                },
                parameter => {
                    proof {
                        lemma_trees_push(value_parameters@, parameter);
                    }
                    value_parameters.push(parameter);
                },
            }
            proof {
                lemma_next_significant(src, cursor@.idx);
            }
            let sep = match next_non_space(cursor).branch() {
                ControlFlow::Continue(sep) => sep,
                ControlFlow::Break(residual) => {
                    return Locational::from_residual(residual);
                },
            };
            match sep.t.value {
                TokenType::Symbol(Symbol::Comma) => {},
                TokenType::Symbol(Symbol::Semicolon) => {
                    if phased {
                        meta_parameters = value_parameters;
                        value_parameters = Vec::new();
                        phased = false;
                    } else {
                        return Locational::from_loc(
                            sep.loc,
                            Err(ParseError::UnexpectedToken(sep.t, "`,`, `)`".to_owned())),
                        );
                    }
                },
                TokenType::Symbol(Symbol::BracketClose(Bracket::Paren)) => {
                    return Locational::from(
                        startidx,
                        cursor.position(),
                        Ok((meta_parameters, value_parameters)),
                    );
                },
                _ => {
                    let expected = if phased {
                        "`,`, `;`, `)`"
                    } else {
                        "`,`, `)`"
                    };
                    return Locational::from_loc(
                        sep.loc,
                        Err(ParseError::UnexpectedToken(sep.t, expected.to_owned())),
                    );
                },
            }
        }
    }

    /// Parses what follows the name `ident` of a basic type that began at
    /// `startidx`: its parameter list, if a `(` comes next.
    fn extract_basic(cursor: &mut StringCursor, ident: &str, startidx: usize) -> (r: Locational<
        Result<Self, ParseError>,
    >)
        requires
            startidx <= old(cursor)@.idx,
        ensures
            type_outcome(
                old(cursor)@,
                final(cursor)@,
                r,
                parse_basic(old(cursor)@.src, old(cursor)@.idx, startidx as int, ident@),
            ),
        decreases old(cursor)@.src.len() - old(cursor)@.idx, 3nat,
    {
        let ghost src = cursor@.src;
        let ghost pos = cursor@.idx;
        let open = match next_non_space(cursor).branch() {
            ControlFlow::Continue(open) => open,
            ControlFlow::Break(residual) => {
                return Locational::from_residual(residual);
            },
        };
        proof {
            lemma_next_significant(src, pos);
            lemma_trees_empty();
        }
        match open.t.value {
            TokenType::Symbol(Symbol::BracketOpen(Bracket::Paren)) => {},
            _ => {
                cursor.restore(open.loc.start);
                return Locational::from(
                    startidx,
                    cursor.position(),
                    Ok(Type::Basic { name: ident.to_owned(), parameters: Vec::new() }),
                );
            },
        }
        match Self::extract_param_list(cursor, false).branch() {
            ControlFlow::Continue(list) => {
                let (_, parameters) = list.t;
                Locational::from(
                    startidx,
                    cursor.position(),
                    Ok(Type::Basic { name: ident.to_owned(), parameters }),
                )
            },
            ControlFlow::Break(residual) => Locational::from_loc(residual.loc, Err(residual.t)),
        }
    }

    /// Parses what follows the keyword `fun` of a function type that began
    /// at `startidx`: its parameter list and its return type.
    fn extract_fun(cursor: &mut StringCursor, startidx: usize) -> (r: Locational<
        Result<Self, ParseError>,
    >)
        requires
            startidx <= old(cursor)@.idx,
        ensures
            type_outcome(
                old(cursor)@,
                final(cursor)@,
                r,
                parse_fun(old(cursor)@.src, old(cursor)@.idx, startidx as int),
            ),
        decreases old(cursor)@.src.len() - old(cursor)@.idx, 3nat,
    {
        let ghost src = cursor@.src;
        let ghost pos = cursor@.idx;
        let open = match next_non_space(cursor).branch() {
            ControlFlow::Continue(open) => open,
            ControlFlow::Break(residual) => {
                return Locational::from_residual(residual);
            },
        };
        proof {
            lemma_next_significant(src, pos);
            lemma_params_settled(src, next_significant(src, pos).end, true);
        }
        match open.t.value {
            TokenType::Symbol(Symbol::BracketOpen(Bracket::Paren)) => {},
            _ => {
                return Locational::from_loc(
                    open.loc,
                    Err(ParseError::UnexpectedToken(open.t, "`(`".to_owned())),
                );
            },
        }
        let (meta_parameters, value_parameters) = match Self::extract_param_list(
            cursor,
            true,
        ).branch() {
            ControlFlow::Continue(list) => list.t,
            ControlFlow::Break(residual) => {
                return Locational::from_loc(residual.loc, Err(residual.t));
            },
        };
        match Self::from_cursor(cursor).branch() {
            ControlFlow::Continue(ret) => Locational::from(
                startidx,
                cursor.position(),
                Ok(
                    Type::Fun {
                        meta_parameters,
                        value_parameters,
                        return_type: Box::new(ret.t),
                    },
                ),
            ),
            ControlFlow::Break(residual) => Locational::from_loc(residual.loc, Err(residual.t)),
        }
    }
}

} // verus!
