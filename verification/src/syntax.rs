//! Syntax trees as plain values: what the symbol extractors read of a parsed
//! file, and the text that a node covers.

use vstd::prelude::*;
use vstd::utf8::{
    decode_utf8, encode_utf8, encode_utf8_decode_utf8, encode_utf8_valid_utf8, is_char_boundary,
    is_char_boundary_iff_not_is_continuation_byte, is_char_boundary_start_end_of_seq,
    valid_utf8_split,
};
use vstd::string::StringSliceAdditionalSpecFns;
use crate::text::{opt_view, str_eq};

verus! {

/// The kind of a node and the bytes of the source that it covers.
#[derive(Debug, Clone)]
pub struct NodeSpan {
    pub kind: String,
    pub start_byte: usize,
    pub end_byte: usize,
}

/// What a lookup of one field name on a node gave: the child in that field,
/// or nothing.
#[derive(Debug, Clone)]
pub struct FieldSlot {
    pub name: String,
    pub node: Option<NodeSpan>,
}

/// One node of a syntax tree with its children in document order.
#[derive(Debug)]
pub struct SyntaxNode {
    pub kind: String,
    /// Row of the node's first character, counted from 0.
    pub start_row: usize,
    /// Row of the node's end, counted from 0.
    pub end_row: usize,
    /// The field lookups recorded for this node.
    pub fields: Vec<FieldSlot>,
    pub children: Vec<SyntaxNode>,
}

/// The child recorded under `name` in the first slot of that name at or after
/// `from`.
pub open spec fn field_from(fields: Seq<FieldSlot>, name: Seq<char>, from: int) -> Option<
    NodeSpan,
>
    decreases fields.len() - from,
{
    if from < 0 || from >= fields.len() {
        None
    } else if fields[from].name@ == name {
        fields[from].node
    } else {
        field_from(fields, name, from + 1)
    }
}

/// The text of `source` between two byte offsets of its UTF-8 encoding, where
/// the offsets are in order, within the text, and fall between characters.
pub open spec fn text_at(source: Seq<char>, start: int, end: int) -> Option<Seq<char>> {
    let bytes = encode_utf8(source);
    if 0 <= start <= end <= bytes.len() && is_char_boundary(bytes, start) && is_char_boundary(
        bytes,
        end,
    ) {
        Some(decode_utf8(bytes.subrange(start, end)))
    } else {
        None
    }
}

impl NodeSpan {
    /// The text of `source` that the node covers, if its span lies in it.
    pub open spec fn text(self, source: Seq<char>) -> Option<Seq<char>> {
        text_at(source, self.start_byte as int, self.end_byte as int)
    }
}

impl SyntaxNode {
    /// A node without fields or children.
    pub fn new(kind: &str, start_row: usize, end_row: usize) -> (r: SyntaxNode)
        ensures
            r.kind@ == kind@,
            r.start_row == start_row,
            r.end_row == end_row,
            r.fields@.len() == 0,
            r.children@.len() == 0,
    {
        SyntaxNode {
            kind: kind.to_owned(),
            start_row,
            end_row,
            fields: Vec::new(),
            children: Vec::new(),
        }
    }

    /// The node with one more recorded field lookup, after those it has.
    pub fn with_field(self, name: &str, node: Option<NodeSpan>) -> (r: SyntaxNode)
        ensures
            r.kind == self.kind,
            r.start_row == self.start_row,
            r.end_row == self.end_row,
            r.children == self.children,
            r.fields@.len() == self.fields@.len() + 1,
            r.fields@.drop_last() == self.fields@,
            r.fields@.last().name@ == name@,
            r.fields@.last().node == node,
    {
        let mut out = self;
        out.fields.push(FieldSlot { name: name.to_owned(), node });
        out
    }

    /// The node with one more child, after those it has.
    pub fn with_child(self, child: SyntaxNode) -> (r: SyntaxNode)
        ensures
            r.kind == self.kind,
            r.start_row == self.start_row,
            r.end_row == self.end_row,
            r.fields == self.fields,
            r.children@ == self.children@.push(child),
    {
        let mut out = self;
        out.children.push(child);
        out
    }

    /// The child in the field `name`, as recorded.
    pub open spec fn field(self, name: Seq<char>) -> Option<NodeSpan> {
        field_from(self.fields@, name, 0)
    }

    /// The text that the child in the field `name` covers.
    pub open spec fn field_text(self, source: Seq<char>, name: Seq<char>) -> Option<Seq<char>> {
        match self.field(name) {
            Some(span) => span.text(source),
            None => None,
        }
    }

    /// Whether the node's kind is `kind`.
    pub fn is_kind(&self, kind: &str) -> (r: bool)
        ensures
            r == (self.kind@ == kind@),
    {
        str_eq(self.kind.as_str(), kind)
    }

    /// Looks up the child in the field `name`.
    pub fn child_by_field_name(&self, name: &str) -> (r: Option<&NodeSpan>)
        ensures
            match r {
                Some(span) => self.field(name@) == Some(*span),
                None => self.field(name@) is None,
            },
    {
        let mut i: usize = 0;
        while i < self.fields.len()
            invariant
                i <= self.fields.len(),
                self.field(name@) == field_from(self.fields@, name@, i as int),
            decreases self.fields.len() - i,
        {
            if str_eq(self.fields[i].name.as_str(), name) {
                return self.fields[i].node.as_ref();
            }
            i += 1;
        }
        None
    }

    /// The text of the child in the field `name`.
    pub fn field_text_of(&self, source: &str, name: &str) -> (r: Option<String>)
        ensures
            opt_view(r) == self.field_text(source@, name@),
    {
        match self.child_by_field_name(name) {
            Some(span) => node_text(source, span.start_byte, span.end_byte),
            None => None,
        }
    }
}

/// The text of `source` between the byte offsets `start` and `end`.
pub fn node_text(source: &str, start: usize, end: usize) -> (r: Option<String>)
    ensures
        opt_view(r) == text_at(source@, start as int, end as int),
{
    let ghost bytes = encode_utf8(source@);
    let len = source.as_bytes().len();
    if start > end || end > len {
        return None;
    }
    if !source.is_char_boundary(start) || !source.is_char_boundary(end) {
        return None;
    }
    proof {
        encode_utf8_valid_utf8(source@);
        valid_utf8_split(bytes, end as int);
    }
    let (head, _) = source.split_at(end);
    proof {
        let head_bytes = head.spec_bytes();
        if start < end {
            is_char_boundary_iff_not_is_continuation_byte(bytes, start as int);
            is_char_boundary_iff_not_is_continuation_byte(head_bytes, start as int);
        } else {
            is_char_boundary_start_end_of_seq(head_bytes);
        }
    }
    let (_, text) = head.split_at(start);
    proof {
        assert(text.spec_bytes() =~= bytes.subrange(start as int, end as int));
        encode_utf8_decode_utf8(text@);
    }
    Some(text.to_owned())
}

} // verus!
