//! Where the access token comes from.

use vstd::prelude::*;

use crate::text::text_of;

verus! {

/// The part of OpenCode's sign-in file that is read.
#[derive(Debug)]
pub struct OpencodeAuthFile {
    pub openai: Option<OpencodeProvider>,
}

/// The sign-in of one provider.
#[derive(Debug)]
pub struct OpencodeProvider {
    pub access: Option<String>,
}

/// The environment variable that may hold the token.
pub const TOKEN_VARIABLE: &'static str = "OPENAI_ACCESS_TOKEN";

/// The names on the path of OpenCode's sign-in file below the home directory.
pub open spec fn auth_file_names() -> Seq<Seq<char>> {
    seq![".local"@, "share"@, "opencode"@, "auth.json"@]
}

/// The white space of Unicode.
pub open spec fn is_white_space(c: char) -> bool {
    ||| '\u{9}' <= c <= '\u{d}'
    ||| c == ' '
    ||| c == '\u{85}'
    ||| c == '\u{a0}'
    ||| c == '\u{1680}'
    ||| '\u{2000}' <= c <= '\u{200a}'
    ||| c == '\u{2028}'
    ||| c == '\u{2029}'
    ||| c == '\u{202f}'
    ||| c == '\u{205f}'
    ||| c == '\u{3000}'
}

/// A text without the white space at its start.
pub open spec fn trimmed_start(s: Seq<char>) -> Seq<char>
    decreases s.len(),
{
    if s.len() > 0 && is_white_space(s.first()) {
        trimmed_start(s.drop_first())
    } else {
        s
    }
}

/// A text without the white space at its end.
pub open spec fn trimmed_end(s: Seq<char>) -> Seq<char>
    decreases s.len(),
{
    if s.len() > 0 && is_white_space(s.last()) {
        trimmed_end(s.drop_last())
    } else {
        s
    }
}

/// A text without the white space at its start and its end.
pub open spec fn trimmed(s: Seq<char>) -> Seq<char> {
    trimmed_end(trimmed_start(s))
}

/// `str::trim` of the standard library. Claimed: it takes away the white space of
/// Unicode, as the property `White_Space` has it, from the start and the end.
pub assume_specification[ str::trim ](s: &str) -> (r: &str)
    ensures
        r@ == trimmed(s@),
;

/// The token in a text: the text without white space around it, unless nothing is left.
pub open spec fn token_in(text: Option<Seq<char>>) -> Option<Seq<char>> {
    match text {
        Some(t) => if trimmed(t).len() > 0 {
            Some(trimmed(t))
        } else {
            None
        },
        None => None,
    }
}

/// The text in a sign-in file that holds the token.
pub open spec fn access_text(auth: Option<OpencodeAuthFile>) -> Option<Seq<char>> {
    match auth {
        Some(OpencodeAuthFile { openai: Some(OpencodeProvider { access: Some(t) }) }) => Some(t@),
        _ => None,
    }
}

/// The token of the sign-in file, or else that of the environment.
pub open spec fn chosen_token(
    auth: Option<OpencodeAuthFile>,
    environment: Option<String>,
) -> Option<Seq<char>> {
    match token_in(access_text(auth)) {
        Some(t) => Some(t),
        None => token_in(text_of(environment)),
    }
}

/// The token in a text.
pub fn clean_token(text: &str) -> (token: Option<String>)
    ensures
        text_of(token) == token_in(Some(text@)),
{
    let token = text.trim();
    if token.is_empty() {
        None
    } else {
        Some(token.to_string())
    }
}

/// The path of OpenCode's sign-in file below the home directory, name by name.
pub fn auth_file_path() -> (names: Vec<String>)
    ensures
        names@.map_values(|name: String| name@) == auth_file_names(),
{
    let mut names: Vec<String> = Vec::new();
    names.push(".local".to_string());
    names.push("share".to_string());
    names.push("opencode".to_string());
    names.push("auth.json".to_string());
    assert(names@.map_values(|name: String| name@) =~= auth_file_names());
    names
}

/// The token of a sign-in file, which may be missing or unreadable.
pub fn load_access_token_from_opencode_auth(auth: Option<OpencodeAuthFile>) -> (token: Option<
    String,
>)
    ensures
        text_of(token) == token_in(access_text(auth)),
{
    match auth {
        Some(OpencodeAuthFile { openai: Some(OpencodeProvider { access: Some(text) }) }) =>
        clean_token(text.as_str()),
        _ => None,
    }
}

/// The access token: that of the sign-in file, or else that of the environment.
pub fn load_access_token(
    auth: Option<OpencodeAuthFile>,
    environment: Option<String>,
) -> (token: Option<String>)
    ensures
        text_of(token) == chosen_token(auth, environment),
{
    if let Some(token) = load_access_token_from_opencode_auth(auth) {
        return Some(token);
    }
    match environment {
        Some(text) => clean_token(text.as_str()),
        None => None,
    }
}

/// A trimmed text has no white space at its start or its end.
pub proof fn law_trimmed_ends_are_solid(s: Seq<char>)
    ensures
        trimmed(s).len() > 0 ==> !is_white_space(trimmed(s).first()) && !is_white_space(
            trimmed(s).last(),
        ),
{
    lemma_trimmed_start(s);
    lemma_trimmed_end(trimmed_start(s));
}

/// Trimming takes away white space only, and only from the start and the end.
pub proof fn law_trimming_keeps_the_rest(s: Seq<char>)
    ensures
        exists|before: Seq<char>, after: Seq<char>| #[trigger]
            (before + trimmed(s) + after) == s && all_white_space(before) && all_white_space(after),
{
    let start = trimmed_start(s);
    lemma_trimmed_start(s);
    lemma_trimmed_end(start);
    let before = s.take(s.len() - start.len());
    let after = start.skip(trimmed(s).len() as int);
    assert(before + trimmed(s) + after =~= s);
}

/// Trimming twice is trimming once.
pub proof fn law_trimming_is_idempotent(s: Seq<char>)
    ensures
        trimmed(trimmed(s)) == trimmed(s),
{
    law_trimmed_ends_are_solid(s);
}

/// A text that is all white space holds no token, and any other text holds one.
pub proof fn law_blank_text_holds_no_token(text: Seq<char>)
    ensures
        token_in(Some(text)) is None <==> all_white_space(text),
{
    lemma_trimmed_start(text);
    lemma_trimmed_end(trimmed_start(text));
    law_trimming_keeps_the_rest(text);
    if all_white_space(text) && trimmed(text).len() > 0 {
        law_trimmed_ends_are_solid(text);
        let (before, after) = choose|before: Seq<char>, after: Seq<char>| #[trigger]
            (before + trimmed(text) + after) == text && all_white_space(before) && all_white_space(
                after,
            );
        assert(text[before.len() as int] == trimmed(text)[0]);
    }
    if trimmed(text).len() == 0 {
        let (before, after) = choose|before: Seq<char>, after: Seq<char>| #[trigger]
            (before + trimmed(text) + after) == text && all_white_space(before) && all_white_space(
                after,
            );
        assert forall|i: int| 0 <= i < text.len() implies is_white_space(#[trigger] text[i]) by {
            if i < before.len() {
                assert(text[i] == before[i]);
            } else {
                assert(text[i] == after[i - before.len()]);
            }
        }
    }
}

/// A chosen token is never empty, and has no white space at its start or its end.
pub proof fn law_chosen_token_is_clean(auth: Option<OpencodeAuthFile>, environment: Option<String>)
    ensures
        chosen_token(auth, environment) matches Some(t) ==> t.len() > 0 && trimmed(t) == t
            && !is_white_space(t.first()) && !is_white_space(t.last()),
{
    if let Some(t) = access_text(auth) {
        law_trimmed_ends_are_solid(t);
        law_trimming_is_idempotent(t);
    }
    if let Some(t) = text_of(environment) {
        law_trimmed_ends_are_solid(t);
        law_trimming_is_idempotent(t);
    }
}

/// A token of the sign-in file is taken whatever the environment holds.
pub proof fn law_sign_in_file_comes_first(
    auth: Option<OpencodeAuthFile>,
    environment: Option<String>,
    other: Option<String>,
)
    requires
        token_in(access_text(auth)) is Some,
    ensures
        chosen_token(auth, environment) == chosen_token(auth, other),
        chosen_token(auth, environment) == token_in(access_text(auth)),
{
}

/// Whether all of a text is white space.
pub open spec fn all_white_space(s: Seq<char>) -> bool {
    forall|i: int| 0 <= i < s.len() ==> is_white_space(#[trigger] s[i])
}

proof fn lemma_trimmed_start(s: Seq<char>)
    ensures
        trimmed_start(s).len() <= s.len(),
        trimmed_start(s) == s.skip(s.len() - trimmed_start(s).len()),
        all_white_space(s.take(s.len() - trimmed_start(s).len())),
        trimmed_start(s).len() > 0 ==> !is_white_space(trimmed_start(s).first()),
    decreases s.len(),
{
    let rest = trimmed_start(s);
    if s.len() > 0 && is_white_space(s.first()) {
        lemma_trimmed_start(s.drop_first());
        let cut = s.len() - rest.len();
        assert(s.skip(cut) =~= s.drop_first().skip(cut - 1));
        assert forall|i: int| 0 <= i < cut implies is_white_space(#[trigger] s.take(cut)[i]) by {
            if i > 0 {
                assert(s.take(cut)[i] == s.drop_first().take(cut - 1)[i - 1]);
            }
        }
    } else {
        assert(s.skip(0) =~= s);
    }
}

proof fn lemma_trimmed_end(s: Seq<char>)
    ensures
        trimmed_end(s).len() <= s.len(),
        trimmed_end(s) == s.take(trimmed_end(s).len() as int),
        all_white_space(s.skip(trimmed_end(s).len() as int)),
        trimmed_end(s).len() > 0 ==> !is_white_space(trimmed_end(s).last()),
    decreases s.len(),
{
    let rest = trimmed_end(s);
    let kept = rest.len() as int;
    if s.len() > 0 && is_white_space(s.last()) {
        lemma_trimmed_end(s.drop_last());
        assert(s.take(kept) =~= s.drop_last().take(kept));
        assert forall|i: int| 0 <= i < s.skip(kept).len() implies is_white_space(
            #[trigger] s.skip(kept)[i],
        ) by {
            if i < s.len() - 1 - kept {
                assert(s.skip(kept)[i] == s.drop_last().skip(kept)[i]);
            }
        }
    } else {
        assert(s.take(s.len() as int) =~= s);
    }
}

/// The characters that count as white space, by their numbers.
pub proof fn law_white_space_in_numbers(c: char)
    ensures
        is_white_space(c) <==> 9 <= c as int <= 13 || c as int == 32 || c as int == 0x85 || c as int
            == 0xa0 || c as int == 0x1680 || 0x2000 <= c as int <= 0x200a || c as int == 0x2028
            || c as int == 0x2029 || c as int == 0x202f || c as int == 0x205f || c as int
            == 0x3000,
{
}

/// Whether a text is a token in another one: what stands between the white space
/// around it.
pub open spec fn is_core(token: Seq<char>, text: Seq<char>) -> bool {
    exists|before: Seq<char>, after: Seq<char>| #[trigger]
        (before + token + after) == text && all_white_space(before) && all_white_space(after)
}

/// A token is what stands between the white space around it: all the rest of the
/// text, with neither white space at its ends nor anything missing.
pub proof fn law_core_is_all_but_white_space(token: Seq<char>, text: Seq<char>)
    ensures
        is_core(token, text) <==> exists|start: int|
            0 <= start && start + token.len() <= text.len() && token == #[trigger] text.subrange(
                start,
                start + token.len(),
            ) && (forall|i: int| 0 <= i < start ==> is_white_space(#[trigger] text[i])) && (forall|
                i: int,
            |
                start + token.len() <= i < text.len() ==> is_white_space(#[trigger] text[i])),
{
    if is_core(token, text) {
        let (before, after) = choose|before: Seq<char>, after: Seq<char>| #[trigger]
            (before + token + after) == text && all_white_space(before) && all_white_space(after);
        let start = before.len() as int;
        assert(token =~= text.subrange(start, start + token.len()));
        assert forall|i: int| 0 <= i < start implies is_white_space(#[trigger] text[i]) by {
            assert(text[i] == before[i]);
        }
        assert forall|i: int| start + token.len() <= i < text.len() implies is_white_space(
            #[trigger] text[i],
        ) by {
            assert(text[i] == after[i - start - token.len()]);
        }
    }
    if exists|start: int|
        0 <= start && start + token.len() <= text.len() && token == #[trigger] text.subrange(
            start,
            start + token.len(),
        ) && (forall|i: int| 0 <= i < start ==> is_white_space(#[trigger] text[i])) && (forall|
            i: int,
        |
            start + token.len() <= i < text.len() ==> is_white_space(#[trigger] text[i])) {
        let start = choose|start: int|
            0 <= start && start + token.len() <= text.len() && token == #[trigger] text.subrange(
                start,
                start + token.len(),
            ) && (forall|i: int| 0 <= i < start ==> is_white_space(#[trigger] text[i])) && (forall|
                i: int,
            |
                start + token.len() <= i < text.len() ==> is_white_space(#[trigger] text[i]));
        let before = text.take(start);
        let after = text.skip(start + token.len());
        assert(before + token + after =~= text);
    }
}

/// A text has a token just where not all of it is white space. The token is all of
/// the text but the white space around it.
pub proof fn law_token_is_cut_out(text: &str, token: Option<String>)
    requires
        call_ensures(clean_token, (text,), token),
    ensures
        token is None <==> forall|i: int| 0 <= i < text@.len() ==> is_white_space(
            #[trigger] text@[i],
        ),
        token matches Some(t) ==> is_core(t@, text@) && t@.len() > 0 && !is_white_space(t@[0])
            && !is_white_space(t@[t@.len() - 1]),
{
    law_blank_text_holds_no_token(text@);
    law_trimming_keeps_the_rest(text@);
    law_trimmed_ends_are_solid(text@);
}

/// The token of the sign-in file is the one in the access text of its provider
/// openai. Where the file, the provider or the text is missing, or the text is all
/// white space, there is none.
pub proof fn law_sign_in_file_token(auth: Option<OpencodeAuthFile>, token: Option<String>)
    requires
        call_ensures(load_access_token_from_opencode_auth, (auth,), token),
    ensures
        auth is None ==> token is None,
        auth matches Some(file) ==> file.openai is None ==> token is None,
        auth matches Some(file) ==> (file.openai matches Some(provider) ==> provider.access is None
            ==> token is None),
        auth matches Some(file) ==> (file.openai matches Some(provider) ==> (
        provider.access matches Some(text) ==> {
            &&& token is None <==> all_white_space(text@)
            &&& token matches Some(t) ==> is_core(t@, text@) && t@.len() > 0 && !is_white_space(
                t@[0],
            ) && !is_white_space(t@[t@.len() - 1])
        })),
{
    if let Some(text) = access_text(auth) {
        law_blank_text_holds_no_token(text);
        law_trimming_keeps_the_rest(text);
        law_trimmed_ends_are_solid(text);
    }
}

/// What it is for all of a text to be white space.
pub proof fn law_all_white_space_is_every_character(s: Seq<char>)
    ensures
        all_white_space(s) <==> forall|i: int| 0 <= i < s.len() ==> is_white_space(#[trigger] s[i]),
{
}

/// The token is the one of the sign-in file where that has one, and else the one of
/// the environment, where that has one.
pub proof fn law_token_comes_from_file_or_environment(
    auth: Option<OpencodeAuthFile>,
    environment: Option<String>,
    in_file: Option<String>,
    token: Option<String>,
)
    requires
        call_ensures(load_access_token_from_opencode_auth, (auth,), in_file),
        call_ensures(load_access_token, (auth, environment), token),
    ensures
        in_file matches Some(f) ==> (token matches Some(t) && t@ == f@),
        in_file is None && environment is None ==> token is None,
        in_file is None ==> (environment matches Some(text) ==> {
            &&& token is None <==> all_white_space(text@)
            &&& token matches Some(t) ==> is_core(t@, text@) && t@.len() > 0 && !is_white_space(
                t@[0],
            ) && !is_white_space(t@[t@.len() - 1])
        }),
{
    if let Some(text) = environment {
        law_blank_text_holds_no_token(text@);
        law_trimming_keeps_the_rest(text@);
        law_trimmed_ends_are_solid(text@);
    }
}

/// The sign-in file lies at .local/share/opencode/auth.json below the home directory,
/// and the variable is OPENAI_ACCESS_TOKEN.
pub proof fn law_places_of_tokens(names: Vec<String>)
    requires
        call_ensures(auth_file_path, (), names),
    ensures
        names@.len() == 4,
        names@[0]@ == ".local"@,
        names@[1]@ == "share"@,
        names@[2]@ == "opencode"@,
        names@[3]@ == "auth.json"@,
        TOKEN_VARIABLE@ == "OPENAI_ACCESS_TOKEN"@,
{
    let texts = names@.map_values(|name: String| name@);
    assert(texts.len() == 4);
    assert(texts[0] == ".local"@ && texts[1] == "share"@);
    assert(texts[2] == "opencode"@ && texts[3] == "auth.json"@);
}

} // verus!
