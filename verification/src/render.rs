//! Rendering: the canonical prefix-notation text of a value, specified as a
//! pure function of tree structure and produced by a recursive renderer
//! proved against that specification.

use vstd::prelude::*;

use crate::decimal::render_u64;
use crate::decimal::spec_dec;
use crate::value::Operation;
use crate::value::Value;
use crate::value::ValueT;

verus! {

/// The fixed textual tag of an operator.
pub open spec fn op_tag(op: Operation) -> Seq<char> {
    match op {
        Operation::ADD => seq!['A', 'D', 'D'],
        Operation::SUB => seq!['S', 'U', 'B'],
        Operation::MUL => seq!['M', 'U', 'L'],
        Operation::DIV => seq!['D', 'I', 'V'],
        Operation::AND => seq!['A', 'N', 'D'],
        Operation::OR => seq!['O', 'R'],
        Operation::XOR => seq!['X', 'O', 'R'],
    }
}

/// The tag of an operator as a string.
fn op_tag_str(op: Operation) -> (r: &'static str)
    ensures
        r@ == op_tag(op),
{
    proof {
        reveal_strlit("ADD");
        reveal_strlit("SUB");
        reveal_strlit("MUL");
        reveal_strlit("DIV");
        reveal_strlit("AND");
        reveal_strlit("OR");
        reveal_strlit("XOR");
    }
    match op {
        Operation::ADD => "ADD",
        Operation::SUB => "SUB",
        Operation::MUL => "MUL",
        Operation::DIV => "DIV",
        Operation::AND => "AND",
        Operation::OR => "OR",
        Operation::XOR => "XOR",
    }
}

/// The canonical text of a value: a concrete scalar in its natural form, a
/// variable as `<name:width>`, and an equation as `(TAG left right)`. A pure
/// function of tree structure alone.
pub open spec fn spec_render<T: ValueT>(v: Value<T>) -> Seq<char>
    decreases v,
{
    match v {
        Value::Concrete(c) => c.value.spec_text(),
        Value::Variable(s) => seq!['<'] + s.name@ + seq![':'] + spec_dec(s.bit_width as nat) + seq![
            '>',
        ],
        Value::Equation(e) => seq!['('] + op_tag(e.op) + seq![' '] + spec_render(*e.left) + seq![
            ' ',
        ] + spec_render(*e.right) + seq![')'],
    }
}

impl<T: ValueT> Value<T> {
    /// Render the value as its canonical prefix-notation text.
    pub fn render(&self) -> (r: String)
        ensures
            r@ == spec_render(*self),
        decreases self,
    {
        proof {
            reveal_strlit("<");
            reveal_strlit(":");
            reveal_strlit(">");
            reveal_strlit("(");
            reveal_strlit(")");
            reveal_strlit(" ");
        }
        match self {
            Value::Concrete(c) => c.value.render_scalar(),
            Value::Variable(v) => {
                let mut s = String::from_str("<");
                s.append(v.name.as_str());
                s.append(":");
                let width = render_u64(v.bit_width as u64);
                s.append(width.as_str());
                s.append(">");
                proof {
                    assert(s@ =~= spec_render(*self));
                }
                s
            },
            Value::Equation(e) => {
                let mut s = String::from_str("(");
                s.append(op_tag_str(e.op));
                s.append(" ");
                let left = e.left.render();
                s.append(left.as_str());
                s.append(" ");
                let right = e.right.render();
                s.append(right.as_str());
                s.append(")");
                proof {
                    assert(s@ =~= spec_render(*self));
                }
                s
            },
        }
    }
}

/// Rendering is deterministic: the text of a value is a function of the
/// tree alone, so equal trees render to equal text, however and whenever
/// each rendering is taken.
pub proof fn lemma_render_deterministic<T: ValueT>(v1: Value<T>, v2: Value<T>)
    requires
        v1 == v2,
    ensures
        spec_render(v1) == spec_render(v2),
{
}

} // verus!
