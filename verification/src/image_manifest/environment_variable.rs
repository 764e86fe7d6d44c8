//! Environment variables of an app: a constrained name and a free value.

use vstd::prelude::*;
use vstd::string::StrSliceExecFns;

use crate::json::{spec_lookup, Json};
use crate::types::is_digit;
use crate::util::{
    ent_keys, is_leaf_msg, key_if, leaf, lemma_obj_err_not_empty, obj_err_rel, req_err_rel,
    req_valid, req_value_rel, required, Errors, Parseable, ParseResult, StringWrapper,
};

verus! {

/// An ASCII letter, of either case.
pub open spec fn is_alpha(c: char) -> bool {
    (65 <= c as u32 && c as u32 <= 90) || (97 <= c as u32 && c as u32 <= 122)
}

pub open spec fn is_env_char(c: char) -> bool {
    is_alpha(c) || is_digit(c) || c == '_'
}

/// The environment-variable name rule, `^[a-zA-Z][a-zA-Z0-9_]*$`.
pub open spec fn valid_env_var_name(s: Seq<char>) -> bool {
    &&& s.len() > 0
    &&& is_alpha(s[0])
    &&& forall|i: int| 0 <= i < s.len() ==> is_env_char(#[trigger] s[i])
}

fn alpha(c: char) -> (r: bool)
    ensures
        r == is_alpha(c),
{
    let u = c as u32;
    (65 <= u && u <= 90) || (97 <= u && u <= 122)
}

#[verifier::loop_isolation(false)]
fn check_env_var_name(s: &String) -> (r: bool)
    ensures
        r == valid_env_var_name(s@),
{
    let st = s.as_str();
    let n = st.unicode_len();
    if n == 0 {
        return false;
    }
    if !alpha(st.get_char(0)) {
        return false;
    }
    let mut i: usize = 0;
    while i < n
        invariant
            0 <= i <= n,
            n as int == s@.len(),
            forall|k: int| 0 <= k < i as int ==> is_env_char(#[trigger] s@[k]),
        decreases n - i,
    {
        let c = st.get_char(i);
        let u = c as u32;
        if !((65 <= u && u <= 90) || (97 <= u && u <= 122) || (48 <= u && u <= 57) || c == '_') {
            assert(!is_env_char(s@[i as int]));
            return false;
        }
        i = i + 1;
    }
    true
}

pub struct EnvironmentVariableName(String);

impl View for EnvironmentVariableName {
    type V = Seq<char>;

    closed spec fn view(&self) -> Seq<char> {
        self.0@
    }
}

impl EnvironmentVariableName {
    pub open spec fn wf(&self) -> bool {
        valid_env_var_name(self@)
    }

    pub fn as_str(&self) -> (r: &str)
        ensures
            r@ == self@,
    {
        self.0.as_str()
    }
}

impl StringWrapper for EnvironmentVariableName {
    open spec fn str_valid(s: Seq<char>) -> bool {
        valid_env_var_name(s)
    }

    open spec fn str_value_rel(s: Seq<char>, v: EnvironmentVariableName) -> bool {
        v@ == s
    }

    open spec fn str_err_rel(s: Seq<char>, e: Errors) -> bool {
        is_leaf_msg(e, "has invalid formatting."@)
    }

    fn from_string(s: &String) -> (r: ParseResult<EnvironmentVariableName>) {
        if check_env_var_name(s) {
            Ok(EnvironmentVariableName(s.clone()))
        } else {
            Err(leaf("has invalid formatting."))
        }
    }
}

// ---------------------------------------------------------------------------
// The environment-variable object.
// ---------------------------------------------------------------------------
pub open spec fn env_var_fields_valid(fields: Seq<(String, Json)>) -> bool {
    &&& req_valid::<EnvironmentVariableName>(fields, "name"@)
    &&& req_valid::<String>(fields, "value"@)
}

pub open spec fn env_var_bad_keys(fields: Seq<(String, Json)>) -> Seq<Seq<char>> {
    key_if("name"@, !req_valid::<EnvironmentVariableName>(fields, "name"@)) + key_if(
        "value"@,
        !req_valid::<String>(fields, "value"@),
    )
}

pub open spec fn env_var_field_err(fields: Seq<(String, Json)>, k: Seq<char>, e: Errors) -> bool {
    if k == "name"@ {
        req_err_rel::<EnvironmentVariableName>(fields, k, e)
    } else if k == "value"@ {
        req_err_rel::<String>(fields, k, e)
    } else {
        false
    }
}

pub struct EnvironmentVariable {
    pub name: EnvironmentVariableName,
    pub value: String,
}

impl Parseable for EnvironmentVariable {
    open spec fn json_valid(j: Json) -> bool {
        match j {
            Json::Object(fields) => env_var_fields_valid(fields@),
            _ => false,
        }
    }

    open spec fn value_rel(j: Json, v: EnvironmentVariable) -> bool {
        match j {
            Json::Object(fields) => {
                &&& req_value_rel::<EnvironmentVariableName>(fields@, "name"@, v.name)
                &&& req_value_rel::<String>(fields@, "value"@, v.value)
            },
            _ => false,
        }
    }

    open spec fn err_rel(j: Json, e: Errors) -> bool {
        match j {
            Json::Object(fields) => obj_err_rel(
                e,
                env_var_bad_keys(fields@),
                |k: Seq<char>, se: Errors| env_var_field_err(fields@, k, se),
            ),
            _ => is_leaf_msg(e, "must be an object"@),
        }
    }

    fn from_json(json: &Json) -> (r: ParseResult<EnvironmentVariable>) {
        match json {
            Json::Object(fields) => {
                proof {
                    reveal_strlit("name");
                    reveal_strlit("value");
                }
                let mut errs: Vec<(String, Errors)> = Vec::new();
                let name = match required::<EnvironmentVariableName>(fields, &"name".to_owned()) {
                    Ok(v) => Some(v),
                    Err(e) => {
                        errs.push(("name".to_owned(), e));
                        None
                    },
                };
                let value = match required::<String>(fields, &"value".to_owned()) {
                    Ok(v) => Some(v),
                    Err(e) => {
                        errs.push(("value".to_owned(), e));
                        None
                    },
                };
                if errs.len() == 0 {
                    match (name, value) {
                        (Some(n), Some(v)) => Ok(EnvironmentVariable { name: n, value: v }),
                        _ => vstd::pervasive::unreached(),
                    }
                } else {
                    proof {
                        assert(ent_keys(errs@) =~= env_var_bad_keys(fields@));
                        lemma_obj_err_not_empty(
                            Errors::Object(errs),
                            env_var_bad_keys(fields@),
                            |k: Seq<char>, se: Errors| env_var_field_err(fields@, k, se),
                        );
                    }
                    Err(Errors::Object(errs))
                }
            },
            _ => Err(leaf("must be an object")),
        }
    }
}

} // verus!
