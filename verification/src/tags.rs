//! Tag extraction: parse a model reply into a bounded list of tags, or
//! fall back to the raw reply text when the reply does not look like a tag
//! list. Both outcomes are success paths for the caller; only the transport
//! can fail. Rendering re-escapes each tag for the markdown transport.

use vstd::prelude::*;
use vstd::string::StringExecFns;
use crate::llm::{MessageView, MistralClient, MistralMessage, MistralRole, MistralModelType, ModelRequest, msgs_view};
use crate::markdown::{escape_chars, escape_char_vec, lemma_unescape_no_backslash, unescape_chars, unescape_char_vec};
use crate::text::{chars_to_string, push_all, split_char, split_on, str_chars, trim_chars, trim_spec, until_char, until_first, lemma_split_around_sep, lemma_split_sep_free, lemma_trim_token, lemma_until_char_absent};

verus! {

/// A character a tag may carry in the raw model reply: lowercase latin,
/// digit, underscore, or the backslash of an escape.
pub open spec fn is_raw_tag_char(c: char) -> bool {
    ('a' <= c && c <= 'z') || ('0' <= c && c <= '9') || c == '_' || c == '\\'
}

/// A character of a well-formed tag token: lowercase latin, digit or
/// underscore.
pub open spec fn is_plain_tag_char(c: char) -> bool {
    ('a' <= c && c <= 'z') || ('0' <= c && c <= '9') || c == '_'
}

/// The anchored acceptance test: the reply must open with a tag token.
pub open spec fn tags_gate(s: Seq<char>) -> bool {
    s.len() >= 2 && s[0] == '#' && is_raw_tag_char(s[1])
}

/// What one piece between `#` marks contributes: trim it, then keep what
/// stands before the first inner space.
pub open spec fn clean_segment(seg: Seq<char>) -> Seq<char> {
    until_char(trim_spec(seg), ' ')
}

/// A well-formed tag: nonempty, of plain tag characters only.
pub open spec fn is_plain_tag(t: Seq<char>) -> bool {
    t.len() >= 1 && (forall|j: int| 0 <= j < t.len() ==> is_plain_tag_char(#[trigger] t[j]))
}

/// The validated tag tokens of the split pieces: a piece whose cleaned
/// form is empty or carries anything outside `[a-z0-9_]` contributes
/// nothing.
pub open spec fn cleaned(parts: Seq<Seq<char>>) -> Seq<Seq<char>>
    decreases parts.len(),
{
    if parts.len() == 0 {
        Seq::<Seq<char>>::empty()
    } else {
        let t = clean_segment(parts[0]);
        if is_plain_tag(t) {
            seq![t] + cleaned(parts.skip(1))
        } else {
            cleaned(parts.skip(1))
        }
    }
}

/// The full parse of a raw model reply: gate, unescape, split on `#`,
/// clean and validate each piece, cap at `max` tags (`0` meaning
/// unlimited). A reply in which no well-formed tag survives parses to
/// nothing: a successful parse always carries at least one tag.
pub open spec fn parse_tags_spec(s: Seq<char>, max: nat) -> Option<Seq<Seq<char>>> {
    if tags_gate(s) {
        let list = cleaned(split_char(unescape_chars(s), '#'));
        if list.len() == 0 {
            None
        } else if max == 0 || list.len() <= max {
            Some(list)
        } else {
            Some(list.take(max as int))
        }
    } else {
        None
    }
}

/// Every tag a parse keeps is well formed.
proof fn lemma_cleaned_all_plain(parts: Seq<Seq<char>>)
    ensures
        forall|i: int| 0 <= i < cleaned(parts).len() ==> is_plain_tag(#[trigger] cleaned(parts)[i]),
    decreases parts.len(),
{
    if parts.len() > 0 {
        lemma_cleaned_all_plain(parts.skip(1));
        let t = clean_segment(parts[0]);
        if is_plain_tag(t) {
            assert(cleaned(parts) == seq![t] + cleaned(parts.skip(1)));
            assert forall|i: int| 0 <= i < cleaned(parts).len() implies is_plain_tag(
                #[trigger] cleaned(parts)[i],
            ) by {
                if i == 0 {
                    assert(cleaned(parts)[0] == t);
                } else {
                    assert(cleaned(parts)[i] == cleaned(parts.skip(1))[i - 1]);
                }
            }
        } else {
            assert(cleaned(parts) == cleaned(parts.skip(1)));
        }
    }
}

/// Decide `is_raw_tag_char` for one character.
pub fn is_raw_tag_char_exec(c: char) -> (r: bool)
    ensures
        r == is_raw_tag_char(c),
{
    let u = c as u32;
    ('a' as u32 <= u && u <= 'z' as u32) || ('0' as u32 <= u && u <= '9' as u32) || c == '_'
        || c == '\\'
}

/// Decide `is_plain_tag_char` for one character.
pub fn is_plain_tag_char_exec(c: char) -> (r: bool)
    ensures
        r == is_plain_tag_char(c),
{
    let u = c as u32;
    ('a' as u32 <= u && u <= 'z' as u32) || ('0' as u32 <= u && u <= '9' as u32) || c == '_'
}

/// Decide `is_plain_tag` for one cleaned piece.
fn is_plain_tag_exec(t: &Vec<char>) -> (r: bool)
    ensures
        r == is_plain_tag(t@),
{
    let n = t.len();
    if n == 0 {
        return false;
    }
    let mut i: usize = 0;
    while i < n
        invariant
            n == t@.len(),
            i <= n,
            forall|j: int| 0 <= j < i ==> is_plain_tag_char(#[trigger] t@[j]),
        decreases n - i,
    {
        if !is_plain_tag_char_exec(t[i]) {
            return false;
        }
        i = i + 1;
    }
    true
}

/// An ordered list of tag strings parsed out of one model reply.
#[derive(Debug)]
pub struct Tags {
    tags: Vec<String>,
}

impl View for Tags {
    type V = Seq<Seq<char>>;

    closed spec fn view(&self) -> Seq<Seq<char>> {
        self.tags.deep_view()
    }
}

/// `#tag` with the tag escaped for the transport.
pub open spec fn hash_escaped(tag: Seq<char>) -> Seq<char> {
    seq!['#'] + escape_chars(tag)
}

/// The rendered markdown line for a tag list: each tag escaped once and
/// `#`-prefixed, the tags joined with single spaces.
pub open spec fn escaped_md_spec(tags: Seq<Seq<char>>) -> Seq<char>
    decreases tags.len(),
{
    if tags.len() == 0 {
        Seq::<char>::empty()
    } else if tags.len() == 1 {
        hash_escaped(tags[0])
    } else {
        hash_escaped(tags[0]) + seq![' '] + escaped_md_spec(tags.skip(1))
    }
}

/// Joining one more tag appends a space (except at the front) and the
/// escaped `#`-prefixed tag.
proof fn lemma_escaped_md_push(s: Seq<Seq<char>>, t: Seq<char>)
    ensures
        escaped_md_spec(s.push(t)) == if s.len() == 0 {
            hash_escaped(t)
        } else {
            escaped_md_spec(s) + seq![' '] + hash_escaped(t)
        },
    decreases s.len(),
{
    let sp = s.push(t);
    if s.len() == 0 {
        assert(sp.len() == 1);
        assert(sp[0] == t);
    } else {
        assert(sp.len() >= 2);
        assert(sp[0] == s[0]);
        assert(sp.skip(1) =~~= s.skip(1).push(t));
        lemma_escaped_md_push(s.skip(1), t);
        if s.len() == 1 {
            assert(s.skip(1).len() == 0);
            assert(escaped_md_spec(sp.skip(1)) == hash_escaped(t));
            assert(escaped_md_spec(s) == hash_escaped(s[0]));
            assert(hash_escaped(s[0]) + seq![' '] + hash_escaped(t) =~= escaped_md_spec(sp));
        } else {
            assert(escaped_md_spec(sp.skip(1)) == escaped_md_spec(s.skip(1)) + seq![' ']
                + hash_escaped(t));
            assert(escaped_md_spec(s) == hash_escaped(s[0]) + seq![' '] + escaped_md_spec(
                s.skip(1),
            ));
            assert(hash_escaped(sp[0]) + seq![' '] + escaped_md_spec(sp.skip(1)) =~= (hash_escaped(
                s[0],
            ) + seq![' '] + escaped_md_spec(s.skip(1))) + seq![' '] + hash_escaped(t));
        }
    }
}

impl Tags {
    /// Parse a raw model reply. `max_tags_amount` caps the list; `0` means
    /// unlimited. `None` when the reply does not open with a tag token, or
    /// when no well-formed tag survives cleaning: a parsed list is never
    /// empty, never longer than a nonzero cap, and holds only tags of
    /// `[a-z0-9_]` characters.
    pub fn from_str(text: &str, max_tags_amount: usize) -> (r: Option<Tags>)
        ensures
            match r {
                Some(t) => parse_tags_spec(text@, max_tags_amount as nat) == Some(t@),
                None => parse_tags_spec(text@, max_tags_amount as nat) is None,
            },
            r matches Some(t) ==> 1 <= t@.len(),
            r matches Some(t) ==> (max_tags_amount > 0 ==> t@.len() <= max_tags_amount),
            r matches Some(t) ==> (forall|i: int| 0 <= i < t@.len() ==> is_plain_tag(
                #[trigger] t@[i],
            )),
    {
        let chars = str_chars(text);
        if chars.len() < 2 {
            return None;
        }
        if !(chars[0] == '#' && is_raw_tag_char_exec(chars[1])) {
            return None;
        }
        let u = unescape_char_vec(&chars);
        let parts = split_on(&u, '#');

        let n = parts.len();
        let mut all: Vec<Vec<char>> = Vec::new();
        let mut i: usize = 0;
        proof {
            assert(parts.deep_view().skip(0) =~~= parts.deep_view());
            assert(all.deep_view() + cleaned(parts.deep_view()) =~~= cleaned(parts.deep_view()));
        }
        while i < n
            invariant
                n == parts@.len(),
                i <= n,
                parts.deep_view().len() == n,
                cleaned(parts.deep_view()) == all.deep_view() + cleaned(
                    parts.deep_view().skip(i as int),
                ),
            decreases n - i,
        {
            let ghost pdv = parts.deep_view();
            let ghost rest = pdv.skip(i as int);
            proof {
                assert(rest[0] == pdv[i as int]);
                assert(rest.skip(1) =~~= pdv.skip(i + 1));
                assert(pdv[i as int] == parts@[i as int].deep_view());
                assert(parts@[i as int].deep_view() =~= parts@[i as int]@);
            }
            let trimmed = trim_chars(&parts[i]);
            let tag = until_first(&trimmed, ' ');
            proof {
                assert(tag@ == clean_segment(pdv[i as int]));
            }
            if is_plain_tag_exec(&tag) {
                let ghost old_all = all.deep_view();
                all.push(tag);
                proof {
                    assert(all.deep_view() =~~= old_all.push(tag@));
                    assert(cleaned(rest) == seq![clean_segment(rest[0])] + cleaned(rest.skip(1)));
                    assert(old_all.push(tag@) =~~= old_all + seq![tag@]);
                    assert(cleaned(pdv) == all.deep_view() + cleaned(pdv.skip(i + 1)));
                }
            } else {
                proof {
                    assert(cleaned(rest) == cleaned(rest.skip(1)));
                }
            }
            i = i + 1;
        }
        proof {
            assert(parts.deep_view().skip(n as int) =~~= Seq::<Seq<char>>::empty());
            assert(all.deep_view() + cleaned(Seq::<Seq<char>>::empty()) =~~= all.deep_view());
        }

        if all.len() == 0 {
            proof {
                assert(all.deep_view().len() == 0);
            }
            return None;
        }

        let total = all.len();
        let take_n: usize = if max_tags_amount == 0 || total <= max_tags_amount {
            total
        } else {
            max_tags_amount
        };
        let mut tags: Vec<String> = Vec::new();
        let mut j: usize = 0;
        proof {
            assert(all.deep_view().len() == total);
            assert(tags.deep_view() =~~= all.deep_view().take(0));
        }
        while j < take_n
            invariant
                take_n <= total,
                total == all@.len(),
                all.deep_view().len() == total,
                j <= take_n,
                tags.deep_view() == all.deep_view().take(j as int),
            decreases take_n - j,
        {
            let s = chars_to_string(&all[j]);
            let ghost old_tags = tags.deep_view();
            tags.push(s);
            proof {
                assert(all.deep_view()[j as int] == all@[j as int].deep_view());
                assert(tags.deep_view() =~~= old_tags.push(all.deep_view()[j as int]));
                assert(all.deep_view().take(j + 1) =~~= all.deep_view().take(j as int).push(
                    all.deep_view()[j as int],
                ));
            }
            j = j + 1;
        }

        let result = Tags { tags };
        proof {
            let list = cleaned(split_char(unescape_chars(text@), '#'));
            assert(all.deep_view() == list);
            if max_tags_amount == 0 || total <= max_tags_amount {
                assert(result@ =~~= list);
            } else {
                assert(result@ =~~= list.take(max_tags_amount as int));
            }
            lemma_cleaned_all_plain(split_char(unescape_chars(text@), '#'));
            assert(forall|i: int| 0 <= i < result@.len() ==> result@[i] == list[i]);
        }
        Some(result)
    }

    /// How many tags the list holds.
    pub fn len(&self) -> (n: usize)
        ensures
            n == self@.len(),
    {
        self.tags.len()
    }

    /// The tags as a list of strings.
    pub fn as_list(&self) -> (r: &Vec<String>)
        ensures
            r.deep_view() == self@,
    {
        &self.tags
    }

    /// The tag at position `i`.
    pub fn tag_at(&self, i: usize) -> (r: &String)
        requires
            i < self@.len(),
        ensures
            r@ == self@[i as int],
    {
        &self.tags[i]
    }

    /// The rendered markdown line: each tag escaped once and
    /// `#`-prefixed, the tags joined with single spaces.
    pub fn to_escaped_md(&self) -> (r: String)
        ensures
            r@ == escaped_md_spec(self@),
    {
        let n = self.tags.len();
        let mut joined: Vec<char> = Vec::new();
        let mut i: usize = 0;
        proof {
            assert(self@.len() == n);
            assert(self@.take(0) =~~= Seq::<Seq<char>>::empty());
        }
        while i < n
            invariant
                n == self.tags@.len(),
                self@.len() == n,
                i <= n,
                joined@ == escaped_md_spec(self@.take(i as int)),
            decreases n - i,
        {
            proof {
                assert(self@[i as int] == self.tags@[i as int]@);
            }
            let ghost before = joined@;
            if i > 0 {
                joined.push(' ');
            }
            joined.push('#');
            let tag_chars = str_chars(self.tags[i].as_str());
            let escaped = escape_char_vec(&tag_chars);
            push_all(&mut joined, &escaped);
            proof {
                let tv = self@;
                lemma_escaped_md_push(tv.take(i as int), tv[i as int]);
                assert(tv.take(i + 1) =~~= tv.take(i as int).push(tv[i as int]));
                if i == 0 {
                    assert(joined@ =~= hash_escaped(tv[0]));
                } else {
                    assert(joined@ =~= escaped_md_spec(tv.take(i as int)) + seq![' ']
                        + hash_escaped(tv[i as int]));
                }
            }
            i = i + 1;
        }
        proof {
            assert(self@.take(n as int) =~~= self@);
        }
        chars_to_string(&joined)
    }
}

/// The extractor's system prompt: the tagging rules and worked examples.
pub open spec fn tags_prompt_spec() -> Seq<char> {
    "
You are notes tags generator. Your goal to help with tags generation fot notes.

# Rules

First tag is a category tag. Example of category tags:
- #idea
- #shopping_list
- #recipe
- #must_watch / #must_read / #must_play
- #credentials
- #project

Second tag is a subcategory tag or regular tag. Example of subcategory tags:
- #startup
- #movie / #book / #game
- #grocery / #clothes / #electronics / #furniture ...
- #bank / #email / #social_media / #website

Other tags should be regular tags related to the note content.

Each not should have from 2 to 5 tags.

Tags should contain only lowercase latin letters, numbers and underscores.

Tags should be separated by spaces.

DO NOT GENERATE MORE THAN 5 TAGS!

YOU SHOULD RETURN ONLY A TAG LIST! DO NOT ADD ANYTHING ELSE!

# Examples

## Input
`Liste de courses Ikea:
- Table basse (la petite, pas trop chère)
- Étagère pour le salon (tu sais, celle qu'on a vu la dernière fois)
- Coussins colorés (prends des motifs sympas)
- Lampe de bureau (IMPORTANT, celle avec variateur de lumière si possible)
- Plantes artificielles (2 ou 3 pour égayer la cuisine)
- Cadres photo (tailles variées, choisis jolis)
- Boîtes de rangement (pour mes trucs de couture)
- Rideaux pour la chambre (couleur neutre, style cosy)`

## Response
`#shopping_list #ikea #furniture #home_decor #lighting`

## Input
`Home: 6, Jalan Taman Seputeh, Taman Seputeh, 58000 Kuala Lumpur, Wilayah Persekutuan Kuala Lumpur, Malaysia`

## Response
`#address #home #malasia #kuala_lumpur`

## Input
`Add feature: Dark mode`

## Response
`#idea #project #feature #dark_mode`
"@
}

/// The extractor's fixed few-shot priming: two notes and their tag lines.
pub open spec fn tags_primer_spec() -> Seq<MessageView> {
    seq![
        MessageView { role: MistralRole::User, content: "Platformer game about a cat"@ },
        MessageView { role: MistralRole::Assistant, content: "#idea #game #platformer #cat"@ },
        MessageView { role: MistralRole::User, content: "Silicon Valley"@ },
        MessageView {
            role: MistralRole::Assistant,
            content: "#must_watch #tv_show #comedy #geek"@,
        },
    ]
}

/// The output-token budget for a tag count: ten tokens per tag.
pub fn calc_mx_tokens(tags_amount: usize) -> (r: usize)
    requires
        tags_amount * 10 <= usize::MAX,
    ensures
        r == tags_amount * 10,
{
    tags_amount * 10
}

/// Turns note text into a validated tag list by asking the model. Holds
/// only immutable configuration; concurrent calls share it.
#[derive(Debug)]
pub struct TagsGenerator {
    pub base_client: MistralClient,
    pub max_tags_amount: usize,
}

impl TagsGenerator {
    /// An extractor priming the tiny model with the tagging rules, capped
    /// at six tags and the matching token budget.
    pub fn new(token: &str) -> (r: Self)
        ensures
            r.max_tags_amount == 6,
            r.base_client.api_key@ == token@,
            r.base_client.model == MistralModelType::Tiny,
            r.base_client.max_tokens == Some(60usize),
            r.base_client.temperature_milli == 700,
            r.base_client.random_seed is None,
            r.base_client.api_url@ == "https://api.mistral.ai/v1/chat/completions"@,
            msgs_view(r.base_client.history@) == tags_primer_spec().push(
                MessageView { role: MistralRole::System, content: tags_prompt_spec() },
            ),
    {
        let max_tags_amount: usize = 6;
        let mut history: Vec<MistralMessage> = Vec::new();
        history.push(MistralMessage::user("Platformer game about a cat"));
        history.push(MistralMessage::assistant("#idea #game #platformer #cat"));
        history.push(MistralMessage::user("Silicon Valley"));
        history.push(MistralMessage::assistant("#must_watch #tv_show #comedy #geek"));
        proof {
            assert(msgs_view(history@) =~= tags_primer_spec());
        }
        let base_client = MistralClient::new(token)
            .with_model(MistralModelType::Tiny)
            .with_max_tokens(Some(calc_mx_tokens(max_tags_amount)))
            .with_history(history)
            .with_system_message(
            "
You are notes tags generator. Your goal to help with tags generation fot notes.

# Rules

First tag is a category tag. Example of category tags:
- #idea
- #shopping_list
- #recipe
- #must_watch / #must_read / #must_play
- #credentials
- #project

Second tag is a subcategory tag or regular tag. Example of subcategory tags:
- #startup
- #movie / #book / #game
- #grocery / #clothes / #electronics / #furniture ...
- #bank / #email / #social_media / #website

Other tags should be regular tags related to the note content.

Each not should have from 2 to 5 tags.

Tags should contain only lowercase latin letters, numbers and underscores.

Tags should be separated by spaces.

DO NOT GENERATE MORE THAN 5 TAGS!

YOU SHOULD RETURN ONLY A TAG LIST! DO NOT ADD ANYTHING ELSE!

# Examples

## Input
`Liste de courses Ikea:
- Table basse (la petite, pas trop chère)
- Étagère pour le salon (tu sais, celle qu'on a vu la dernière fois)
- Coussins colorés (prends des motifs sympas)
- Lampe de bureau (IMPORTANT, celle avec variateur de lumière si possible)
- Plantes artificielles (2 ou 3 pour égayer la cuisine)
- Cadres photo (tailles variées, choisis jolis)
- Boîtes de rangement (pour mes trucs de couture)
- Rideaux pour la chambre (couleur neutre, style cosy)`

## Response
`#shopping_list #ikea #furniture #home_decor #lighting`

## Input
`Home: 6, Jalan Taman Seputeh, Taman Seputeh, 58000 Kuala Lumpur, Wilayah Persekutuan Kuala Lumpur, Malaysia`

## Response
`#address #home #malasia #kuala_lumpur`

## Input
`Add feature: Dark mode`

## Response
`#idea #project #feature #dark_mode`
",
        );
        TagsGenerator { base_client, max_tags_amount }
    }

    /// Set the sampling temperature, in thousandths.
    pub fn with_temperature(self, temperature_milli: u32) -> (r: Self)
        ensures
            r.base_client == (MistralClient { temperature_milli, ..self.base_client }),
            r.max_tags_amount == self.max_tags_amount,
    {
        TagsGenerator {
            base_client: self.base_client.with_temperature(temperature_milli),
            max_tags_amount: self.max_tags_amount,
        }
    }

    /// Fix the provider-side random seed; `None` leaves it free.
    pub fn with_random_seed(self, random_seed: Option<i64>) -> (r: Self)
        ensures
            r.base_client == (MistralClient { random_seed, ..self.base_client }),
            r.max_tags_amount == self.max_tags_amount,
    {
        TagsGenerator {
            base_client: self.base_client.with_random_seed(random_seed),
            max_tags_amount: self.max_tags_amount,
        }
    }

    /// Select the model family.
    pub fn with_model(self, model: MistralModelType) -> (r: Self)
        ensures
            r.base_client == (MistralClient { model, ..self.base_client }),
            r.max_tags_amount == self.max_tags_amount,
    {
        TagsGenerator {
            base_client: self.base_client.with_model(model),
            max_tags_amount: self.max_tags_amount,
        }
    }

    /// Change the tag cap and the token budget that goes with it.
    pub fn with_max_tags_amount(self, max_tags_amount: usize) -> (r: Self)
        requires
            max_tags_amount * 10 <= usize::MAX,
        ensures
            r.max_tags_amount == max_tags_amount,
            r.base_client == (MistralClient {
                max_tokens: Some((max_tags_amount * 10) as usize),
                ..self.base_client
            }),
    {
        let tokens = calc_mx_tokens(max_tags_amount);
        TagsGenerator {
            base_client: self.base_client.with_max_tokens(Some(tokens)),
            max_tags_amount,
        }
    }

    /// The completion request extracting tags for `message_text`: the
    /// primed conversation plus the trimmed text as the new user turn.
    pub fn request_for(&self, message_text: &str) -> (r: ModelRequest)
        ensures
            msgs_view(r.messages@) == msgs_view(self.base_client.history@).push(
                MessageView { role: MistralRole::User, content: trim_spec(message_text@) },
            ),
            r.api_url == self.base_client.api_url,
            r.api_key == self.base_client.api_key,
            r.model == self.base_client.model,
            r.temperature_milli == self.base_client.temperature_milli,
            r.max_tokens == self.base_client.max_tokens,
            r.random_seed == self.base_client.random_seed,
    {
        let chars = str_chars(message_text);
        let trimmed_chars = trim_chars(&chars);
        let trimmed = chars_to_string(&trimmed_chars);
        let m = MistralMessage::user(trimmed.as_str());
        let r = self.base_client.build_request(m);
        proof {
            assert(msgs_view(r.messages@) =~= msgs_view(self.base_client.history@).push(
                MessageView { role: MistralRole::User, content: trim_spec(message_text@) },
            ));
        }
        r
    }

    /// Parse a model reply into tags under this extractor's cap; hand the
    /// raw reply back when it is no tag list. Both outcomes are successes.
    pub fn parse_response(&self, response: &str) -> (r: Result<Tags, String>)
        ensures
            match r {
                Ok(t) => parse_tags_spec(response@, self.max_tags_amount as nat) == Some(t@),
                Err(s) => parse_tags_spec(response@, self.max_tags_amount as nat) is None && s@
                    == response@,
            },
    {
        match Tags::from_str(response, self.max_tags_amount) {
            Some(t) => Ok(t),
            None => Err(String::from_str(response)),
        }
    }
}

/// The user-turn text wrapping a note for tag extraction.
pub fn note_message(text: &str) -> (r: String)
    ensures
        r@ == "Note:\n"@ + text@,
{
    let mut s = String::from_str("Note:\n");
    s.append(text);
    s
}

/// Render an extraction outcome for the markdown transport: the escaped
/// tag line on success, the escaped raw reply on fallback.
pub fn render_tags_md(outcome: &Result<Tags, String>) -> (r: String)
    ensures
        outcome matches Ok(t) ==> r@ == escaped_md_spec(t@),
        outcome matches Err(m) ==> r@ == escape_chars(m@),
{
    match outcome {
        Ok(t) => t.to_escaped_md(),
        Err(m) => crate::markdown::escape_md(m.as_str()),
    }
}

/// Tag tokens as a well-formed reply carries them: nonempty, of plain tag
/// characters only.
pub open spec fn well_formed_tokens(tags: Seq<Seq<char>>) -> bool {
    (forall|i: int| 0 <= i < tags.len() ==> #[trigger] tags[i].len() >= 1) && (forall|i: int, j: int|
        0 <= i < tags.len() && 0 <= j < tags[i].len() ==> is_plain_tag_char(#[trigger] tags[i][j]))
}

/// The reply text `#t1 #t2 … #tk` for the given tokens.
pub open spec fn reply_of(tags: Seq<Seq<char>>) -> Seq<char>
    decreases tags.len(),
{
    if tags.len() == 0 {
        Seq::<char>::empty()
    } else if tags.len() == 1 {
        seq!['#'] + tags[0]
    } else {
        seq!['#'] + tags[0] + seq![' '] + reply_of(tags.skip(1))
    }
}

/// The pieces such a reply splits into at `#`: every token but the last
/// keeps its separating space.
spec fn seg_list(tags: Seq<Seq<char>>) -> Seq<Seq<char>>
    decreases tags.len(),
{
    if tags.len() == 0 {
        Seq::<Seq<char>>::empty()
    } else if tags.len() == 1 {
        seq![tags[0]]
    } else {
        seq![tags[0] + seq![' ']] + seg_list(tags.skip(1))
    }
}

proof fn lemma_reply_no_backslash(tags: Seq<Seq<char>>)
    requires
        well_formed_tokens(tags),
    ensures
        forall|k: int| 0 <= k < reply_of(tags).len() ==> #[trigger] reply_of(tags)[k] != '\\',
    decreases tags.len(),
{
    let r = reply_of(tags);
    if tags.len() == 0 {
    } else if tags.len() == 1 {
        assert forall|k: int| 0 <= k < r.len() implies #[trigger] r[k] != '\\' by {
            if k == 0 {
                assert(r[k] == '#');
            } else {
                assert(r[k] == tags[0][k - 1]);
                assert(is_plain_tag_char(tags[0][k - 1]));
            }
        }
    } else {
        assert(well_formed_tokens(tags.skip(1))) by {
            assert(forall|i: int| 0 <= i < tags.skip(1).len() ==> #[trigger] tags.skip(1)[i]
                == tags[i + 1]);
        }
        lemma_reply_no_backslash(tags.skip(1));
        let head_len = tags[0].len() as int;
        let rest = reply_of(tags.skip(1));
        assert forall|k: int| 0 <= k < r.len() implies #[trigger] r[k] != '\\' by {
            if k == 0 {
                assert(r[k] == '#');
            } else if k <= head_len {
                assert(r[k] == tags[0][k - 1]);
                assert(is_plain_tag_char(tags[0][k - 1]));
            } else if k == head_len + 1 {
                assert(r[k] == ' ');
            } else {
                assert(r[k] == rest[k - head_len - 2]);
            }
        }
    }
}

proof fn lemma_split_reply(tags: Seq<Seq<char>>)
    requires
        tags.len() >= 1,
        well_formed_tokens(tags),
    ensures
        split_char(reply_of(tags), '#') == seq![Seq::<char>::empty()] + seg_list(tags),
    decreases tags.len(),
{
    let r = reply_of(tags);
    if tags.len() == 1 {
        let t0 = tags[0];
        assert(r == seq!['#'] + t0);
        assert(r[0] == '#');
        assert(r.skip(1) =~= t0);
        assert(forall|i: int| 0 <= i < t0.len() ==> is_plain_tag_char(#[trigger] t0[i]));
        lemma_split_sep_free(t0, '#');
        assert(split_char(r, '#') == seq![Seq::<char>::empty()] + split_char(t0, '#'));
        assert(split_char(r, '#') =~~= seq![Seq::<char>::empty()] + seg_list(tags));
    } else {
        let t0 = tags[0];
        let rest1 = reply_of(tags.skip(1));
        assert(well_formed_tokens(tags.skip(1))) by {
            assert(forall|i: int| 0 <= i < tags.skip(1).len() ==> #[trigger] tags.skip(1)[i]
                == tags[i + 1]);
        }
        lemma_split_reply(tags.skip(1));
        assert(tags.skip(1).len() >= 1);
        if tags.skip(1).len() == 1 {
            assert(rest1 == seq!['#'] + tags.skip(1)[0]);
        } else {
            assert(rest1 == seq!['#'] + tags.skip(1)[0] + seq![' '] + reply_of(
                tags.skip(1).skip(1),
            ));
        }
        assert(rest1[0] == '#');
        assert(r == seq!['#'] + t0 + seq![' '] + rest1);
        assert(r[0] == '#');
        let x = t0 + seq![' '];
        assert(r.skip(1) =~= x + seq!['#'] + rest1.skip(1));
        assert(forall|i: int| 0 <= i < x.len() ==> #[trigger] x[i] != '#') by {
            assert(forall|i: int| 0 <= i < t0.len() ==> is_plain_tag_char(#[trigger] t0[i]));
            assert(forall|i: int| 0 <= i < x.len() && i < t0.len() ==> #[trigger] x[i] == t0[i]);
            assert(x[t0.len() as int] == ' ');
        }
        lemma_split_around_sep(x, rest1.skip(1), '#');
        assert(split_char(r.skip(1), '#') == seq![x] + split_char(rest1.skip(1), '#'));
        assert(split_char(rest1, '#') == seq![Seq::<char>::empty()] + split_char(
            rest1.skip(1),
            '#',
        ));
        assert(split_char(rest1, '#') == seq![Seq::<char>::empty()] + seg_list(tags.skip(1)));
        assert(split_char(rest1.skip(1), '#') =~~= seg_list(tags.skip(1))) by {
            let a = split_char(rest1.skip(1), '#');
            let b = seg_list(tags.skip(1));
            assert(seq![Seq::<char>::empty()] + a == seq![Seq::<char>::empty()] + b);
            assert((seq![Seq::<char>::empty()] + a).len() == 1 + a.len());
            assert((seq![Seq::<char>::empty()] + b).len() == 1 + b.len());
            assert(a.len() == b.len());
            assert(forall|i: int| 0 <= i < a.len() ==> #[trigger] a[i] == (seq![
                Seq::<char>::empty(),
            ] + a)[i + 1]);
            assert(forall|i: int| 0 <= i < b.len() ==> #[trigger] b[i] == (seq![
                Seq::<char>::empty(),
            ] + b)[i + 1]);
        }
        assert(split_char(r, '#') == seq![Seq::<char>::empty()] + split_char(r.skip(1), '#'));
        assert(split_char(r, '#') =~~= seq![Seq::<char>::empty()] + seg_list(tags));
    }
}

proof fn lemma_cleaned_seg_list(tags: Seq<Seq<char>>)
    requires
        tags.len() >= 1,
        well_formed_tokens(tags),
    ensures
        cleaned(seg_list(tags)) == tags,
    decreases tags.len(),
{
    let segs = seg_list(tags);
    let t0 = tags[0];
    assert(forall|i: int| 0 <= i < t0.len() ==> is_plain_tag_char(#[trigger] t0[i]));
    assert(forall|i: int| 0 <= i < t0.len() ==> !crate::text::is_space_char(#[trigger] t0[i]));
    lemma_trim_token(t0);
    if tags.len() == 1 {
        assert(segs[0] == t0);
        assert(clean_segment(t0) == until_char(trim_spec(t0), ' '));
        lemma_until_char_absent(t0, ' ');
        assert(clean_segment(t0) == t0);
        assert(is_plain_tag(t0));
        assert(segs.skip(1) =~~= Seq::<Seq<char>>::empty());
        assert(cleaned(Seq::<Seq<char>>::empty()) == Seq::<Seq<char>>::empty());
        assert(cleaned(segs) == seq![t0] + cleaned(segs.skip(1)));
        assert(cleaned(segs) =~~= tags);
    } else {
        assert(segs[0] == t0 + seq![' ']);
        assert(trim_spec(t0 + seq![' ']) == t0);
        lemma_until_char_absent(t0, ' ');
        assert(clean_segment(segs[0]) == t0);
        assert(is_plain_tag(t0));
        assert(well_formed_tokens(tags.skip(1))) by {
            assert(forall|i: int| 0 <= i < tags.skip(1).len() ==> #[trigger] tags.skip(1)[i]
                == tags[i + 1]);
        }
        lemma_cleaned_seg_list(tags.skip(1));
        assert(segs.skip(1) =~~= seg_list(tags.skip(1)));
        assert(cleaned(segs) == seq![t0] + cleaned(segs.skip(1)));
        assert(seq![t0] + tags.skip(1) =~~= tags);
    }
}

/// A reply that does not even open with `#` parses to no tag set:
/// extraction falls back to handing the raw reply text through.
pub proof fn lemma_unmarked_reply_rejected(s: Seq<char>, max: nat)
    requires
        s.len() == 0 || s[0] != '#',
    ensures
        parse_tags_spec(s, max) is None,
{
}

/// A reply of the exact form `#t1 #t2 … #tk` — nonempty tokens of plain
/// tag characters, single spaces between — parses to exactly those tokens,
/// in their original order, whenever the cap admits `k` tags.
pub proof fn lemma_well_formed_reply_parses(tags: Seq<Seq<char>>, max: nat)
    requires
        1 <= tags.len(),
        max == 0 || tags.len() <= max,
        well_formed_tokens(tags),
    ensures
        parse_tags_spec(reply_of(tags), max) == Some(tags),
{
    let r = reply_of(tags);
    let t0 = tags[0];
    assert(t0.len() >= 1);
    assert(r[0] == '#');
    assert(r[1] == t0[0]) by {
        if tags.len() == 1 {
            assert(r == seq!['#'] + t0);
        } else {
            assert(r == seq!['#'] + t0 + seq![' '] + reply_of(tags.skip(1)));
        }
    }
    assert(is_plain_tag_char(t0[0]));
    assert(r.len() >= 2);
    assert(tags_gate(r));

    lemma_reply_no_backslash(tags);
    lemma_unescape_no_backslash(r);
    assert(unescape_chars(r) == r);

    lemma_split_reply(tags);
    let parts = split_char(r, '#');
    assert(parts == seq![Seq::<char>::empty()] + seg_list(tags));
    assert(parts[0] == Seq::<char>::empty());
    assert(clean_segment(Seq::<char>::empty()).len() == 0) by {
        assert(trim_spec(Seq::<char>::empty()) == Seq::<char>::empty());
        assert(until_char(Seq::<char>::empty(), ' ') == Seq::<char>::empty());
    }
    assert(!is_plain_tag(clean_segment(Seq::<char>::empty())));
    assert(parts.skip(1) =~~= seg_list(tags));
    assert(cleaned(parts) == cleaned(seg_list(tags)));
    lemma_cleaned_seg_list(tags);
    assert(cleaned(parts) == tags);
}

} // verus!
