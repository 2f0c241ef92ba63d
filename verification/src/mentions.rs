//! Mentions: what a text mentions, and how that is narrowed to what the
//! author may mention and to whom the message can reach.
//!
//! A text mentions a user with `<@ID>` and a role with `<%ID>`, where `ID`
//! is an identifier of 26 characters, and it mentions everyone or everyone
//! online with the words `@everyone` and `@online`. Each form counts
//! wherever it stands in the text; anything else is ordinary text.

use crate::error::ChannelPermission;
use crate::error::Error;
use crate::error::PermissionValue;
use crate::ident::id_char;
use crate::ident::is_id_text;
use crate::idlist::insert_id;
use crate::idlist::keep_listed;
use crate::idlist::retain_listed;
use crate::idlist::with_id;
use vstd::prelude::*;

verus! {

/// The working set of mentions of a message that is being made.
#[derive(Clone, Debug, PartialEq, Eq)]
pub struct MentionResolution {
    /// Ids of the users mentioned, each once.
    pub user_mentions: Vec<String>,
    /// Ids of the roles mentioned, each once.
    pub role_mentions: Vec<String>,
    /// Whether everyone is mentioned.
    pub mentions_everyone: bool,
    /// Whether everyone online is mentioned.
    pub mentions_online: bool,
}

/// A working set of mentions as plain values.
pub struct Mentions {
    pub users: Seq<Seq<char>>,
    pub roles: Seq<Seq<char>>,
    pub everyone: bool,
    pub online: bool,
}

impl View for MentionResolution {
    type V = Mentions;

    open spec fn view(&self) -> Mentions {
        Mentions {
            users: self.user_mentions.deep_view(),
            roles: self.role_mentions.deep_view(),
            everyone: self.mentions_everyone,
            online: self.mentions_online,
        }
    }
}

/// Whether `token` stands in `s` at position `i`.
pub open spec fn token_at(s: Seq<char>, token: Seq<char>, i: int) -> bool {
    &&& 0 <= i
    &&& i + token.len() <= s.len()
    &&& s.subrange(i, i + token.len()) == token
}

/// Whether `token` stands anywhere in `s`.
pub open spec fn names(s: Seq<char>, token: Seq<char>) -> bool {
    exists|i: int| token_at(s, token, i)
}

/// Whether a mention with the given sigil stands in `s` at position `i`:
/// `<`, the sigil, an identifier and `>`.
pub open spec fn mention_at(s: Seq<char>, sigil: char, i: int) -> bool {
    &&& 0 <= i
    &&& i + 29 <= s.len()
    &&& s[i] == '<'
    &&& s[i + 1] == sigil
    &&& is_id_text(s.subrange(i + 2, i + 28))
    &&& s[i + 28] == '>'
}

/// The identifiers mentioned with the sigil at positions below `n`, each
/// once, in the order of first mention.
pub open spec fn mentions_below(s: Seq<char>, sigil: char, n: int) -> Seq<Seq<char>>
    decreases n,
{
    if n <= 0 {
        Seq::empty()
    } else if mention_at(s, sigil, n - 1) {
        with_id(mentions_below(s, sigil, n - 1), s.subrange(n + 1, n + 27))
    } else {
        mentions_below(s, sigil, n - 1)
    }
}

/// What the text `s` mentions.
pub open spec fn parsed(s: Seq<char>) -> Mentions {
    Mentions {
        users: mentions_below(s, '@', s.len() as int),
        roles: mentions_below(s, '%', s.len() as int),
        everyone: names(s, "@everyone"@),
        online: names(s, "@online"@),
    }
}

impl Mentions {
    /// No mention at all.
    pub open spec fn none() -> Mentions {
        Mentions { users: Seq::empty(), roles: Seq::empty(), everyone: false, online: false }
    }

    /// With the broadcast mentions that the flags of the request ask for.
    pub open spec fn merged(self, everyone: bool, online: bool) -> Mentions {
        Mentions { everyone: self.everyone || everyone, online: self.online || online, ..self }
    }

    /// With at most one of the two broadcast mentions. Who mentions
    /// everyone mentions everyone online with them, so where both are
    /// asked for, everyone stays and everyone online goes.
    pub open spec fn resolved(self) -> Mentions {
        Mentions { online: self.online && !self.everyone, ..self }
    }

    /// Whether the mentions are such as a message can carry: no user and
    /// no role is held twice, and not both everyone and everyone online
    /// are mentioned.
    pub open spec fn sound(self) -> bool {
        &&& self.users.no_duplicates()
        &&& self.roles.no_duplicates()
        &&& !(self.everyone && self.online)
    }

    /// With the roles narrowed to those among `known`.
    pub open spec fn pruned(self, known: Seq<Seq<char>>) -> Mentions {
        Mentions { roles: keep_listed(self.roles, known), ..self }
    }

    /// Whether many users are mentioned at once: everyone, everyone
    /// online, or a role.
    pub open spec fn has_mass_mention(self) -> bool {
        self.everyone || self.online || self.roles.len() > 0
    }

    /// Without any mass mention.
    pub open spec fn without_mass(self) -> Mentions {
        Mentions { roles: Seq::empty(), everyone: false, online: false, ..self }
    }

    /// The capability that the author lacks for these mentions, if any:
    /// `MentionEveryone` for everyone and everyone online, else
    /// `MentionRoles` for roles.
    pub open spec fn lacking(self, permissions: PermissionValue) -> Option<ChannelPermission> {
        if (self.everyone || self.online) && !permissions.mention_everyone {
            Some(ChannelPermission::MentionEveryone)
        } else if self.roles.len() > 0 && !permissions.mention_roles {
            Some(ChannelPermission::MentionRoles)
        } else {
            None
        }
    }

    /// With `author` mentioned too.
    pub open spec fn with_user(self, author: Seq<char>) -> Mentions {
        Mentions { users: with_id(self.users, author), ..self }
    }

    /// With the users narrowed to those among `allowed`.
    pub open spec fn narrowed(self, allowed: Seq<Seq<char>>) -> Mentions {
        Mentions { users: keep_listed(self.users, allowed), ..self }
    }

    /// As a message between people carries them: users narrowed to the
    /// recipients, and no role.
    pub open spec fn among_recipients(self, recipients: Seq<Seq<char>>) -> Mentions {
        Mentions { users: keep_listed(self.users, recipients), roles: Seq::empty(), ..self }
    }

    /// Without any user.
    pub open spec fn without_users(self) -> Mentions {
        Mentions { users: Seq::empty(), ..self }
    }
}

impl MentionResolution {
    /// No mention at all.
    pub fn new() -> (r: Self)
        ensures
            r@ == Mentions::none(),
            r@.sound(),
    {
        let r = MentionResolution {
            user_mentions: Vec::new(),
            role_mentions: Vec::new(),
            mentions_everyone: false,
            mentions_online: false,
        };
        assert(r@.users =~= Seq::empty());
        assert(r@.roles =~= Seq::empty());
        r
    }

    /// Adds the broadcast mentions that the flags of the request ask for.
    pub fn merge_flags(&mut self, everyone: bool, online: bool)
        ensures
            final(self)@ == old(self)@.merged(everyone, online),
            final(self)@.users == old(self)@.users,
            final(self)@.roles == old(self)@.roles,
    {
        self.mentions_everyone = self.mentions_everyone || everyone;
        self.mentions_online = self.mentions_online || online;
    }

    /// Settles which broadcast mention stays where both are asked for:
    /// everyone, which includes everyone online.
    pub fn resolve_broadcast(&mut self)
        ensures
            final(self)@ == old(self)@.resolved(),
            !(final(self)@.everyone && final(self)@.online),
    {
        if self.mentions_everyone {
            self.mentions_online = false;
        }
    }

    /// Drops the roles that are not among `known`.
    pub fn prune_roles(&mut self, known: &Vec<String>)
        ensures
            final(self)@ == old(self)@.pruned(known.deep_view()),
            old(self)@.sound() ==> final(self)@.sound(),
    {
        retain_listed(&mut self.role_mentions, known);
    }

    /// Whether many users are mentioned at once.
    pub fn has_mass_mention(&self) -> (r: bool)
        ensures
            r == self@.has_mass_mention(),
    {
        self.mentions_everyone || self.mentions_online || self.role_mentions.len() > 0
    }

    /// Drops every mass mention.
    pub fn clear_mass_mentions(&mut self)
        ensures
            final(self)@ == old(self)@.without_mass(),
            old(self)@.sound() ==> final(self)@.sound(),
    {
        self.mentions_everyone = false;
        self.mentions_online = false;
        self.role_mentions = Vec::new();
        assert(self@.roles =~= Seq::empty());
    }

    /// Fails with `MissingPermission` where the author lacks a capability
    /// that these mentions need.
    pub fn check_permissions(&self, permissions: &PermissionValue) -> (r: Result<(), Error>)
        ensures
            self@.lacking(*permissions) matches Some(permission) ==> r == Err::<(), Error>(
                Error::MissingPermission { permission },
            ),
            self@.lacking(*permissions) is None ==> r is Ok,
    {
        if (self.mentions_everyone || self.mentions_online) && !permissions.has_channel_permission(
            ChannelPermission::MentionEveryone,
        ) {
            return Err(Error::MissingPermission { permission: ChannelPermission::MentionEveryone });
        }
        if self.role_mentions.len() > 0 && !permissions.has_channel_permission(
            ChannelPermission::MentionRoles,
        ) {
            return Err(Error::MissingPermission { permission: ChannelPermission::MentionRoles });
        }
        Ok(())
    }

    /// Mentions `author` too.
    pub fn mention_user(&mut self, author: String)
        ensures
            final(self)@ == old(self)@.with_user(author@),
            old(self)@.sound() ==> final(self)@.sound(),
    {
        insert_id(&mut self.user_mentions, author);
    }

    /// Keeps the users that are among `allowed`.
    pub fn narrow_users(&mut self, allowed: &Vec<String>)
        ensures
            final(self)@ == old(self)@.narrowed(allowed.deep_view()),
            old(self)@.sound() ==> final(self)@.sound(),
    {
        retain_listed(&mut self.user_mentions, allowed);
    }

    /// Keeps the users that are among `recipients` and drops every role.
    pub fn narrow_to_recipients(&mut self, recipients: &Vec<String>)
        ensures
            final(self)@ == old(self)@.among_recipients(recipients.deep_view()),
            old(self)@.sound() ==> final(self)@.sound(),
    {
        retain_listed(&mut self.user_mentions, recipients);
        self.role_mentions = Vec::new();
        assert(self@.roles =~= Seq::empty());
    }

    /// Drops every user.
    pub fn clear_users(&mut self)
        ensures
            final(self)@ == old(self)@.without_users(),
            old(self)@.sound() ==> final(self)@.sound(),
    {
        self.user_mentions = Vec::new();
        assert(self@.users =~= Seq::empty());
    }
}

fn to_chars(text: &str) -> (r: Vec<char>)
    ensures
        r@ == text@,
{
    let mut out: Vec<char> = Vec::new();
    broadcast use vstd::string::axiom_spec_iter;

    for c in it: text.chars()
        invariant
            it.seq() == text@,
            out@ == it.seq().take(it.index() as int),
    {
        out.push(c);
        assert(out@ =~= it.seq().take(it.index() + 1));
    }
    assert(out@ =~= text@);
    out
}

fn is_token_at(chars: &Vec<char>, token: &Vec<char>, i: usize) -> (r: bool)
    requires
        i <= chars.len(),
    ensures
        r == token_at(chars@, token@, i as int),
{
    if token.len() > chars.len() - i {
        return false;
    }
    let mut k: usize = 0;
    while k < token.len()
        invariant
            k <= token.len(),
            i + token.len() <= chars.len(),
            forall|j: int| 0 <= j < k ==> chars@[i + j] == token@[j],
        decreases token.len() - k,
    {
        if chars[i + k] != token[k] {
            assert(chars@.subrange(i as int, i + token.len())[k as int] != token@[k as int]);
            return false;
        }
        k = k + 1;
    }
    assert(chars@.subrange(i as int, i + token.len()) =~= token@);
    true
}

fn is_mention_at(chars: &Vec<char>, sigil: char, i: usize) -> (r: bool)
    requires
        i <= chars.len(),
    ensures
        r == mention_at(chars@, sigil, i as int),
{
    if chars.len() - i < 29 {
        return false;
    }
    if chars[i] != '<' || chars[i + 1] != sigil || chars[i + 28] != '>' {
        return false;
    }
    let ghost id = chars@.subrange(i + 2, i + 28);
    let mut k: usize = 2;
    while k < 28
        invariant
            2 <= k <= 28,
            i + 29 <= chars.len(),
            id == chars@.subrange(i + 2, i + 28),
            forall|j: int| 0 <= j < k - 2 ==> crate::ident::is_id_char(#[trigger] id[j]),
        decreases 28 - k,
    {
        if !id_char(chars[i + k]) {
            assert(id[k - 2] == chars@[i + k]);
            return false;
        }
        assert(id[k - 2] == chars@[i + k]);
        k = k + 1;
    }
    true
}

/// Finds what `text` mentions. Nothing in a text is an error: what has
/// not the form of a mention is not one.
pub fn parse_message(text: &str) -> (r: MentionResolution)
    ensures
        r@ == parsed(text@),
        r@.users.no_duplicates(),
        r@.roles.no_duplicates(),
{
    proof {
        lemma_mentions_below_distinct(text@, '@', text@.len() as int);
        lemma_mentions_below_distinct(text@, '%', text@.len() as int);
    }
    let chars = to_chars(text);
    let everyone = to_chars("@everyone");
    let online = to_chars("@online");
    let mut out = MentionResolution::new();
    let mut i: usize = 0;
    while i < chars.len()
        invariant
            i <= chars.len(),
            chars@ == text@,
            everyone@ == "@everyone"@,
            online@ == "@online"@,
            out@.users == mentions_below(text@, '@', i as int),
            out@.roles == mentions_below(text@, '%', i as int),
            out@.everyone <==> exists|k: int| 0 <= k < i && token_at(text@, "@everyone"@, k),
            out@.online <==> exists|k: int| 0 <= k < i && token_at(text@, "@online"@, k),
        decreases chars.len() - i,
    {
        if is_mention_at(&chars, '@', i) {
            let id = text.substring_char(i + 2, i + 28).to_owned();
            insert_id(&mut out.user_mentions, id);
        }
        if is_mention_at(&chars, '%', i) {
            let id = text.substring_char(i + 2, i + 28).to_owned();
            insert_id(&mut out.role_mentions, id);
        }
        if is_token_at(&chars, &everyone, i) {
            out.mentions_everyone = true;
        }
        if is_token_at(&chars, &online, i) {
            out.mentions_online = true;
        }
        i = i + 1;
    }
    proof {
        assert forall|k: int| token_at(text@, "@everyone"@, k) implies 0 <= k < i by {
            reveal_strlit("@everyone");
        }
        assert forall|k: int| token_at(text@, "@online"@, k) implies 0 <= k < i by {
            reveal_strlit("@online");
        }
    }
    out
}

/// No identifier is mentioned twice.
pub proof fn lemma_mentions_below_distinct(s: Seq<char>, sigil: char, n: int)
    ensures
        mentions_below(s, sigil, n).no_duplicates(),
    decreases n,
{
    if n > 0 {
        lemma_mentions_below_distinct(s, sigil, n - 1);
        crate::idlist::lemma_with_id_shape(mentions_below(s, sigil, n - 1), s.subrange(n + 1, n + 27));
    }
}

/// Every identifier that a text is found to mention stands in the text
/// as a mention, and has the form of an identifier.
pub proof fn lemma_mentions_below_sound(s: Seq<char>, sigil: char, n: int, id: Seq<char>)
    requires
        mentions_below(s, sigil, n).contains(id),
    ensures
        is_id_text(id),
        exists|i: int| 0 <= i < n && mention_at(s, sigil, i) && s.subrange(i + 2, i + 28) == id,
    decreases n,
{
    if n > 0 {
        let before = mentions_below(s, sigil, n - 1);
        if mention_at(s, sigil, n - 1) {
            crate::idlist::lemma_with_id_shape_any(before, s.subrange(n + 1, n + 27), id);
            if before.contains(id) {
                lemma_mentions_below_sound(s, sigil, n - 1, id);
            } else {
                assert(mention_at(s, sigil, n - 1) && s.subrange((n - 1) + 2, (n - 1) + 28) == id);
            }
        } else {
            lemma_mentions_below_sound(s, sigil, n - 1, id);
        }
    }
}

/// Every mention that stands in a text is found.
pub proof fn lemma_mentions_below_complete(s: Seq<char>, sigil: char, n: int, i: int)
    requires
        0 <= i < n,
        mention_at(s, sigil, i),
    ensures
        mentions_below(s, sigil, n).contains(s.subrange(i + 2, i + 28)),
    decreases n,
{
    let before = mentions_below(s, sigil, n - 1);
    if i == n - 1 {
        crate::idlist::lemma_with_id_shape_any(before, s.subrange(n + 1, n + 27), s.subrange(n + 1, n + 27));
    } else {
        lemma_mentions_below_complete(s, sigil, n - 1, i);
        if mention_at(s, sigil, n - 1) {
            crate::idlist::lemma_with_id_shape_any(
                before,
                s.subrange(n + 1, n + 27),
                s.subrange(i + 2, i + 28),
            );
        }
    }
}

} // verus!
