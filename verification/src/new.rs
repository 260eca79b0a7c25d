//! Constructor synthesis: the parameters of a `new` function that takes
//! one argument per field of a struct, in declaration order.
//!
//! A named field gives its own name to its parameter. A field without a
//! name, as in a tuple struct, is called `con` followed by its position,
//! counted from zero.

use crate::declaration::Kind;
use vstd::prelude::*;
use vstd::string::StringExecFns;

verus! {

/// A field of a struct: its name, where it has one, and its type as
/// token text.
#[derive(Debug)]
pub struct Field {
    pub identifier: Option<String>,
    pub ty: String,
}

/// A parameter of the constructor, which is also the name under which the
/// argument is stored.
#[derive(Debug)]
pub struct Parameter {
    pub name: String,
    pub ty: String,
}

/// The constructor of a struct.
#[derive(Debug)]
pub struct Constructor {
    pub owner: String,
    pub parameters: Vec<Parameter>,
}

/// The declaration is no struct, so no constructor is derived for it.
#[derive(Debug, Clone, Copy, PartialEq, Eq, Structural)]
pub struct NotAStruct;

/// The character of a decimal digit.
pub open spec fn digit(d: nat) -> char {
    if d == 0 {
        '0'
    } else if d == 1 {
        '1'
    } else if d == 2 {
        '2'
    } else if d == 3 {
        '3'
    } else if d == 4 {
        '4'
    } else if d == 5 {
        '5'
    } else if d == 6 {
        '6'
    } else if d == 7 {
        '7'
    } else if d == 8 {
        '8'
    } else {
        '9'
    }
}

/// A number written in decimal, without leading zeros.
pub open spec fn decimal(n: nat) -> Seq<char>
    decreases n,
{
    if n < 10 {
        seq![digit(n)]
    } else {
        decimal(n / 10).push(digit(n % 10))
    }
}

/// The name of the field at `position`: its own, or `con` and the
/// position.
pub open spec fn parameter_name(identifier: Option<Seq<char>>, position: nat) -> Seq<char> {
    match identifier {
        Some(name) => name,
        None => "con"@ + decimal(position),
    }
}

fn digit_text(d: usize) -> (text: &'static str)
    requires
        d < 10,
    ensures
        text@ == seq![digit(d as nat)],
{
    proof {
        reveal_strlit("0");
        reveal_strlit("1");
        reveal_strlit("2");
        reveal_strlit("3");
        reveal_strlit("4");
        reveal_strlit("5");
        reveal_strlit("6");
        reveal_strlit("7");
        reveal_strlit("8");
        reveal_strlit("9");
    }
    let text = if d == 0 {
        "0"
    } else if d == 1 {
        "1"
    } else if d == 2 {
        "2"
    } else if d == 3 {
        "3"
    } else if d == 4 {
        "4"
    } else if d == 5 {
        "5"
    } else if d == 6 {
        "6"
    } else if d == 7 {
        "7"
    } else if d == 8 {
        "8"
    } else {
        "9"
    };
    assert(text@ =~= seq![digit(d as nat)]);
    text
}

/// Writes `n` in decimal after `prefix`.
fn with_decimal(prefix: String, n: usize) -> (text: String)
    ensures
        text@ == prefix@ + decimal(n as nat),
    decreases n,
{
    if n < 10 {
        prefix.concat(digit_text(n))
    } else {
        let ghost start = prefix@;
        let front = with_decimal(prefix, n / 10);
        let text = front.concat(digit_text(n % 10));
        assert(text@ =~= start + decimal(n as nat));
        text
    }
}

/// The name of the parameter for the field at `position`.
pub fn name_parameter(identifier: &Option<String>, position: usize) -> (name: String)
    ensures
        name@ == parameter_name(
            match identifier {
                Some(given) => Some(given@),
                None => None,
            },
            position as nat,
        ),
{
    match identifier {
        Some(given) => given.clone(),
        None => with_decimal(String::from_str("con"), position),
    }
}

/// The parameter at `position` is the one for the field at `position`.
pub open spec fn parameter_matches(parameter: Parameter, field: Field, position: int) -> bool {
    &&& parameter.ty@ == field.ty@
    &&& parameter.name@ == parameter_name(
        match field.identifier {
            Some(given) => Some(given@),
            None => None,
        },
        position as nat,
    )
}

/// Derives the constructor of a struct called `name` with the given
/// fields: one parameter per field, in order. Any other kind of
/// declaration has no constructor.
pub fn derive(kind: Kind, name: &str, fields: &Vec<Field>) -> (outcome: Result<
    Constructor,
    NotAStruct,
>)
    ensures
        outcome is Ok <==> kind == Kind::Struct,
        outcome matches Ok(constructor) ==> {
            &&& constructor.owner@ == name@
            &&& constructor.parameters.len() == fields.len()
            &&& forall|i: int|
                0 <= i < fields.len() ==> parameter_matches(
                    #[trigger] constructor.parameters@[i],
                    fields@[i],
                    i,
                )
        },
{
    match kind {
        Kind::Struct => {},
        _ => {
            return Err(NotAStruct);
        },
    }
    let mut parameters: Vec<Parameter> = Vec::new();
    let mut i: usize = 0;
    while i < fields.len()
        invariant
            i <= fields.len(),
            parameters.len() == i,
            forall|k: int|
                0 <= k < i ==> parameter_matches(#[trigger] parameters@[k], fields@[k], k),
        decreases fields.len() - i,
    {
        let parameter = Parameter {
            name: name_parameter(&fields[i].identifier, i),
            ty: fields[i].ty.clone(),
        };
        parameters.push(parameter);
        i += 1;
    }
    Ok(Constructor { owner: String::from_str(name), parameters })
}

} // verus!
