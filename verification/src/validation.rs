//! Structural validation of request payloads: nickname shape, field
//! lengths, and email syntax. A failing validation names every offending
//! field in one message.

use vstd::prelude::*;

use crate::domain::user::{LoginUserPayload, NewUserPayload, UpdateUserPayload};

verus! {

/// A nickname character: ASCII letter, digit or underscore.
pub open spec fn is_word_char(c: char) -> bool {
    ('a' as u32 <= c as u32 && c as u32 <= 'z' as u32)
    || ('A' as u32 <= c as u32 && c as u32 <= 'Z' as u32)
    || ('0' as u32 <= c as u32 && c as u32 <= '9' as u32)
    || c == '_'
}

/// A nickname is one or more word characters.
pub open spec fn nickname_ok(s: Seq<char>) -> bool {
    s.len() >= 1 && (forall|i: int| 0 <= i < s.len() ==> is_word_char(s[i]))
}

/// A display name is 3 to 15 characters long.
pub open spec fn name_ok(s: Seq<char>) -> bool {
    3 <= s.len() <= 15
}

/// A password is at least 8 characters long.
pub open spec fn password_len_ok(s: Seq<char>) -> bool {
    s.len() >= 8
}

/// A bio is at most 250 characters long.
pub open spec fn bio_ok(s: Seq<char>) -> bool {
    s.len() <= 250
}

/// Whether `s` is a syntactically valid email address, as the `validator`
/// crate's HTML5-style check decides it; a function of the string alone.
pub uninterp spec fn email_ok(s: Seq<char>) -> bool;

/// Relies on `validator::ValidateEmail::validate_email` for `&str`: a
/// deterministic syntactic check of the address against the HTML5 email
/// grammar.
#[verifier::external_body]
pub fn check_email(s: &str) -> (r: bool)
    ensures
        r == email_ok(s@),
{
    validator::ValidateEmail::validate_email(&s)
}

/// Checks that `s` is one or more word characters.
pub fn check_nickname(s: &str) -> (r: bool)
    ensures
        r == nickname_ok(s@),
{
    let len = s.unicode_len();
    if len == 0 {
        return false;
    }
    let mut i: usize = 0;
    while i < len
        invariant
            len == s@.len(),
            0 <= i <= len,
            forall|j: int| 0 <= j < i ==> is_word_char(s@[j]),
        decreases len - i,
    {
        let c = s.get_char(i);
        let u = c as u32;
        let ok = (97 <= u && u <= 122) || (65 <= u && u <= 90) || (48 <= u && u <= 57)
            || c == '_';
        if !ok {
            return false;
        }
        i = i + 1;
    }
    true
}

/// Checks that the character count of `s` lies in `min ..= max`.
pub fn check_len_range(s: &str, min: usize, max: usize) -> (r: bool)
    ensures
        r == (min <= s@.len() && s@.len() <= max),
        s@.len() <= usize::MAX,
{
    let l = s.unicode_len();
    min <= l && l <= max
}

/// The fields of a create payload that fail validation, in declaration
/// order.
pub open spec fn spec_new_user_violations(p: NewUserPayload) -> Seq<Seq<char>> {
    (match p.name {
        Some(n) => if name_ok(n@) {
            Seq::<Seq<char>>::empty()
        } else {
            seq!["name"@]
        },
        None => Seq::<Seq<char>>::empty(),
    }) + (if nickname_ok(p.nickname@) {
        Seq::<Seq<char>>::empty()
    } else {
        seq!["nickname"@]
    }) + (if email_ok(p.email@) {
        Seq::<Seq<char>>::empty()
    } else {
        seq!["email"@]
    }) + (if password_len_ok(p.password@) {
        Seq::<Seq<char>>::empty()
    } else {
        seq!["password"@]
    }) + (match p.bio {
        Some(b) => if bio_ok(b@) {
            Seq::<Seq<char>>::empty()
        } else {
            seq!["bio"@]
        },
        None => Seq::<Seq<char>>::empty(),
    })
}

/// The fields of an update payload that fail validation, in declaration
/// order.
pub open spec fn spec_update_user_violations(p: UpdateUserPayload) -> Seq<Seq<char>> {
    (match p.name {
        Some(n) => if name_ok(n@) {
            Seq::<Seq<char>>::empty()
        } else {
            seq!["name"@]
        },
        None => Seq::<Seq<char>>::empty(),
    }) + (match p.nickname {
        Some(n) => if nickname_ok(n@) {
            Seq::<Seq<char>>::empty()
        } else {
            seq!["nickname"@]
        },
        None => Seq::<Seq<char>>::empty(),
    }) + (match p.bio {
        Some(b) => if bio_ok(b@) {
            Seq::<Seq<char>>::empty()
        } else {
            seq!["bio"@]
        },
        None => Seq::<Seq<char>>::empty(),
    })
}

/// The fields of a login payload that fail validation, in declaration
/// order.
pub open spec fn spec_login_violations(p: LoginUserPayload) -> Seq<Seq<char>> {
    (if email_ok(p.email@) {
        Seq::<Seq<char>>::empty()
    } else {
        seq!["email"@]
    }) + (if password_len_ok(p.password@) {
        Seq::<Seq<char>>::empty()
    } else {
        seq!["password"@]
    })
}

/// Collects the names of the create-payload fields that fail validation.
pub fn validate_new_user(p: &NewUserPayload) -> (r: Vec<String>)
    ensures
        r.deep_view() == spec_new_user_violations(*p),
{
    let mut r: Vec<String> = Vec::new();
    match &p.name {
        Some(n) => {
            if !check_len_range(n.as_str(), 3, 15) {
                r.push(String::from_str("name"));
            }
        },
        None => {},
    }
    if !check_nickname(p.nickname.as_str()) {
        r.push(String::from_str("nickname"));
    }
    if !check_email(p.email.as_str()) {
        r.push(String::from_str("email"));
    }
    if !check_len_range(p.password.as_str(), 8, usize::MAX) {
        r.push(String::from_str("password"));
    }
    match &p.bio {
        Some(b) => {
            if !check_len_range(b.as_str(), 0, 250) {
                r.push(String::from_str("bio"));
            }
        },
        None => {},
    }
    assert(r.deep_view() =~= spec_new_user_violations(*p));
    r
}

/// Collects the names of the update-payload fields that fail validation.
pub fn validate_update_user(p: &UpdateUserPayload) -> (r: Vec<String>)
    ensures
        r.deep_view() == spec_update_user_violations(*p),
{
    let mut r: Vec<String> = Vec::new();
    match &p.name {
        Some(n) => {
            if !check_len_range(n.as_str(), 3, 15) {
                r.push(String::from_str("name"));
            }
        },
        None => {},
    }
    match &p.nickname {
        Some(n) => {
            if !check_nickname(n.as_str()) {
                r.push(String::from_str("nickname"));
            }
        },
        None => {},
    }
    match &p.bio {
        Some(b) => {
            if !check_len_range(b.as_str(), 0, 250) {
                r.push(String::from_str("bio"));
            }
        },
        None => {},
    }
    assert(r.deep_view() =~= spec_update_user_violations(*p));
    r
}

/// Collects the names of the login-payload fields that fail validation.
pub fn validate_login(p: &LoginUserPayload) -> (r: Vec<String>)
    ensures
        r.deep_view() == spec_login_violations(*p),
{
    let mut r: Vec<String> = Vec::new();
    if !check_email(p.email.as_str()) {
        r.push(String::from_str("email"));
    }
    if !check_len_range(p.password.as_str(), 8, usize::MAX) {
        r.push(String::from_str("password"));
    }
    assert(r.deep_view() =~= spec_login_violations(*p));
    r
}

/// `spec_join(fields)` is the fields separated by commas.
pub open spec fn spec_join(fields: Seq<Seq<char>>) -> Seq<char>
    decreases fields.len(),
{
    if fields.len() == 0 {
        Seq::<char>::empty()
    } else if fields.len() == 1 {
        fields[0]
    } else {
        fields[0] + seq![','] + spec_join(fields.drop_first())
    }
}

proof fn lemma_join_snoc(fields: Seq<Seq<char>>, x: Seq<char>)
    requires
        fields.len() >= 1,
    ensures
        spec_join(fields.push(x)) == spec_join(fields) + seq![','] + x,
    decreases fields.len(),
{
    if fields.len() == 1 {
        let single = seq![x];
        assert(fields.push(x).drop_first() =~= single);
        assert(single.len() == 1 && single[0] == x);
        assert(spec_join(single) == x);
        assert(fields.push(x)[0] == fields[0]);
        assert(spec_join(fields.push(x)) =~= fields[0] + seq![','] + x);
        assert(spec_join(fields) + seq![','] + x =~= fields[0] + seq![','] + x);
    } else {
        assert(fields.push(x).drop_first() =~= fields.drop_first().push(x));
        lemma_join_snoc(fields.drop_first(), x);
        assert(fields.push(x)[0] == fields[0]);
        assert(spec_join(fields.push(x)) =~= spec_join(fields) + seq![','] + x);
    }
}

/// The uniform validation failure message: one line naming every failing
/// field.
pub open spec fn spec_error_msg(fields: Seq<Seq<char>>) -> Seq<char> {
    "The following fields contain validation errors: "@ + spec_join(fields)
}

/// Formats the uniform validation failure message from the failing field
/// names.
pub fn format_error_msg(fields: Vec<String>) -> (r: String)
    ensures
        r@ == spec_error_msg(fields.deep_view()),
{
    let mut r = String::from_str("The following fields contain validation errors: ");
    let ghost prefix: Seq<char> = r@;
    let mut i: usize = 0;
    while i < fields.len()
        invariant
            0 <= i <= fields.len(),
            r@ == prefix + spec_join(fields.deep_view().take(i as int)),
        decreases fields.len() - i,
    {
        let ghost pre = fields.deep_view().take(i as int);
        if i > 0 {
            r.append(",");
            proof {
                reveal_strlit(",");
                assert(","@ =~= seq![',']);
            }
        }
        r.append(fields[i].as_str());
        proof {
            assert(fields.deep_view().take(i + 1) =~= pre.push(fields.deep_view()[i as int]));
            if i > 0 {
                lemma_join_snoc(pre, fields.deep_view()[i as int]);
            } else {
                assert(spec_join(pre.push(fields.deep_view()[i as int])) == fields.deep_view()[0]);
            }
        }
        i = i + 1;
    }
    proof {
        assert(fields.deep_view().take(fields.deep_view().len() as int) =~= fields.deep_view());
    }
    r
}

} // verus!
