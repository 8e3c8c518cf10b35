//! Parsing with tree-sitter: the calls into the parser library, and how a
//! parsed tree is handed to the extractors as a `SyntaxNode`.

use vstd::prelude::*;
use crate::syntax::{FieldSlot, NodeSpan, SyntaxNode};
use crate::text::strings_view;

verus! {

/// `tree_sitter::Parser`, of which nothing is known but what the functions
/// below say.
#[verifier::external_type_specification]
#[verifier::external_body]
pub struct ExParser(tree_sitter::Parser);

/// `tree_sitter::Tree`, of which nothing is known but what the functions
/// below say.
#[verifier::external_type_specification]
#[verifier::external_body]
pub struct ExTree(tree_sitter::Tree);

/// `tree_sitter::Node`, of which nothing is known but what the functions
/// below say.
#[verifier::external_type_specification]
#[verifier::external_body]
pub struct ExNode<'tree>(tree_sitter::Node<'tree>);

/// `tree_sitter::LanguageError`, of which nothing is known.
#[verifier::external_type_specification]
#[verifier::external_body]
pub struct ExLanguageError(tree_sitter::LanguageError);

/// The grammars that a parser can be given.
#[derive(Debug, Clone, Copy, PartialEq, Eq, Structural)]
pub enum Grammar {
    Python,
    TypeScript,
    Rust,
}

/// Why no tree was produced.
#[derive(Debug, Clone, Copy, PartialEq, Eq, Structural)]
pub enum ParseError {
    /// The grammar was generated for another version of the parser library.
    IncompatibleGrammar,
    /// The parser returned no tree.
    NoTree,
}

/// The grammar that a parser was last given, if any.
pub uninterp spec fn parser_grammar(parser: tree_sitter::Parser) -> Option<Grammar>;

/// Whether a parser parses the whole of every text and finishes every parse
/// it begins: it has no timeout, no cancellation flag and no ranges to keep
/// to, and no parse of it was left unfinished.
pub uninterp spec fn parser_unhindered(parser: tree_sitter::Parser) -> bool;

/// The grammar under which a tree was built, if it is one of the three.
pub uninterp spec fn tree_grammar(tree: tree_sitter::Tree) -> Option<Grammar>;

/// What a tree holds: its root as a `SyntaxNode`, with the lookups of the
/// field names `fields` recorded on every node.
pub uninterp spec fn tree_syntax(tree: tree_sitter::Tree, fields: Seq<Seq<char>>) -> SyntaxNode;

/// What the subtree at a node holds: the node as a `SyntaxNode`, with the
/// lookups of the field names `fields` recorded on it and on every node
/// below it.
pub uninterp spec fn node_syntax(node: tree_sitter::Node, fields: Seq<Seq<char>>) -> SyntaxNode;

/// The syntax of the tree that a parser with the grammar `grammar` builds
/// from `source`: from the text alone where there is no earlier tree, else
/// from the text and the earlier tree `earlier`.
pub uninterp spec fn parsed_syntax(
    grammar: Grammar,
    source: Seq<char>,
    earlier: Option<tree_sitter::Tree>,
    fields: Seq<Seq<char>>,
) -> SyntaxNode;

/// The earlier tree that a parse is given, if any.
pub open spec fn earlier_tree(earlier: Option<&tree_sitter::Tree>) -> Option<tree_sitter::Tree> {
    match earlier {
        Some(tree) => Some(*tree),
        None => None,
    }
}

/// The field names that the extractors look up.
pub open spec fn recorded_field_names() -> Seq<Seq<char>> {
    seq!["name"@, "module_name"@, "left"@, "source"@, "type"@, "argument"@]
}

/// The field names that the extractors look up, as strings.
pub fn recorded_fields() -> (r: Vec<String>)
    ensures
        strings_view(r@) == recorded_field_names(),
{
    let mut fields: Vec<String> = Vec::new();
    fields.push("name".to_owned());
    fields.push("module_name".to_owned());
    fields.push("left".to_owned());
    fields.push("source".to_owned());
    fields.push("type".to_owned());
    fields.push("argument".to_owned());
    fields
}

/// `tree_sitter::Parser::new`: the new parser has no grammar, no timeout, no
/// cancellation flag and no ranges to keep to.
#[verifier::external_body]
pub(crate) fn new_parser() -> (r: tree_sitter::Parser)
    ensures
        parser_grammar(r) is None,
        parser_unhindered(r),
{
    tree_sitter::Parser::new()
}

/// `tree_sitter::Parser::set_language` with `tree_sitter_python::LANGUAGE`.
/// The library takes grammars of the versions 13 and 14, and this grammar is
/// of version 14: the call succeeds, and the parser then has the Python
/// grammar. A parser that is unhindered stays so.
#[verifier::external_body]
pub(crate) fn set_python(parser: &mut tree_sitter::Parser) -> (r: Result<
    (),
    tree_sitter::LanguageError,
>)
    ensures
        r is Ok,
        parser_grammar(*final(parser)) == Some(Grammar::Python),
        parser_unhindered(*old(parser)) ==> parser_unhindered(*final(parser)),
{
    parser.set_language(&tree_sitter_python::LANGUAGE.into())
}

/// `tree_sitter::Parser::set_language` with
/// `tree_sitter_typescript::LANGUAGE_TYPESCRIPT`. The library takes grammars
/// of the versions 13 and 14, and this grammar is of version 14: the call
/// succeeds, and the parser then has the TypeScript grammar. A parser that is
/// unhindered stays so.
#[verifier::external_body]
pub(crate) fn set_typescript(parser: &mut tree_sitter::Parser) -> (r: Result<
    (),
    tree_sitter::LanguageError,
>)
    ensures
        r is Ok,
        parser_grammar(*final(parser)) == Some(Grammar::TypeScript),
        parser_unhindered(*old(parser)) ==> parser_unhindered(*final(parser)),
{
    parser.set_language(&tree_sitter_typescript::LANGUAGE_TYPESCRIPT.into())
}

/// `tree_sitter::Parser::set_language` with `tree_sitter_rust::LANGUAGE`. The
/// library takes grammars of the versions 13 and 14, and this grammar is of
/// version 14: the call succeeds, and the parser then has the Rust grammar. A
/// parser that is unhindered stays so.
#[verifier::external_body]
pub(crate) fn set_rust(parser: &mut tree_sitter::Parser) -> (r: Result<
    (),
    tree_sitter::LanguageError,
>)
    ensures
        r is Ok,
        parser_grammar(*final(parser)) == Some(Grammar::Rust),
        parser_unhindered(*old(parser)) ==> parser_unhindered(*final(parser)),
{
    parser.set_language(&tree_sitter_rust::LANGUAGE.into())
}

/// `tree_sitter::Parser::parse`, without an earlier tree or with one. An
/// earlier tree must have been built under the parser's grammar: the parser
/// reads it by the tables of its own grammar. The parser keeps its grammar,
/// and a tree that it gives was built under that grammar. A parser that has
/// a grammar and is unhindered stays unhindered and gives a tree, for every
/// text, and that tree holds the syntax that the grammar gives the text and
/// the earlier tree.
#[verifier::external_body]
pub(crate) fn parse_text(
    parser: &mut tree_sitter::Parser,
    source: &str,
    earlier: Option<&tree_sitter::Tree>,
) -> (r: Option<tree_sitter::Tree>)
    requires
        earlier matches Some(tree) ==> tree_grammar(*tree) is Some && tree_grammar(*tree)
            == parser_grammar(*old(parser)),
    ensures
        parser_grammar(*final(parser)) == parser_grammar(*old(parser)),
        r matches Some(tree) ==> tree_grammar(tree) == parser_grammar(*old(parser)),
        match parser_grammar(*old(parser)) {
            Some(grammar) => parser_unhindered(*old(parser)) ==> {
                &&& parser_unhindered(*final(parser))
                &&& r matches Some(tree) && forall|fields: Seq<Seq<char>>| #[trigger]
                    tree_syntax(tree, fields) == parsed_syntax(
                        grammar,
                        source@,
                        earlier_tree(earlier),
                        fields,
                    )
            },
            None => true,
        },
{
    parser.parse(source, earlier)
}

/// `tree_sitter::Tree::root_node`: the subtree at the root holds what the
/// tree holds.
#[verifier::external_body]
pub(crate) fn root_of(tree: &tree_sitter::Tree) -> (r: tree_sitter::Node<'_>)
    ensures
        forall|fields: Seq<Seq<char>>| #[trigger]
            node_syntax(r, fields) == tree_syntax(*tree, fields),
{
    tree.root_node()
}

/// Copies out the subtree at a node: the node's kind from `Node::kind`, its
/// rows from `Node::start_position` and `Node::end_position`, for each name
/// in `fields` the kind and bytes of what `Node::child_by_field_name` gives,
/// and the subtrees at the children that `Node::children` gives, in order.
#[verifier::external_body]
pub(crate) fn copy_node(node: tree_sitter::Node, fields: &Vec<String>) -> (r: SyntaxNode)
    ensures
        r == node_syntax(node, strings_view(fields@)),
{
    let mut cursor = node.walk();
    let span = |c: tree_sitter::Node| NodeSpan {
        kind: c.kind().to_string(),
        start_byte: c.start_byte(),
        end_byte: c.end_byte(),
    };
    let slot = |f: &String| FieldSlot { name: f.clone(), node: node.child_by_field_name(f).map(span) };
    SyntaxNode {
        kind: node.kind().to_string(),
        start_row: node.start_position().row,
        end_row: node.end_position().row,
        fields: fields.iter().map(slot).collect(),
        children: node.children(&mut cursor).map(|c| copy_node(c, fields)).collect(),
    }
}

/// The root of a tree as a `SyntaxNode`, with the lookups of the field names
/// `fields` recorded on every node.
pub fn snapshot(tree: &tree_sitter::Tree, fields: &Vec<String>) -> (r: SyntaxNode)
    ensures
        r == tree_syntax(*tree, strings_view(fields@)),
{
    copy_node(root_of(tree), fields)
}

} // verus!
