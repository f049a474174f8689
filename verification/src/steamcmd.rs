//! The invocation builder: an order-sensitive accumulator of directives for
//! the external tool, rendered in one shot into a flat token sequence.
//!
//! The builder records, in call order, a sequence of intents — set the
//! install directory, authenticate, update an app (optionally validating),
//! download a workshop item, quit — and renders them into the flat argument
//! list the tool's order-sensitive command grammar demands: the install
//! directory first, the login second, then every action in the exact
//! chronological order it was recorded, each validation token immediately
//! after its own update, and an optional terminal quit token.
//!
//! Rendering consumes the builder: a rendered builder cannot accept further
//! directives or be rendered again.

pub mod app;
pub mod workshop_item;

pub use app::App;
pub use workshop_item::WorkshopItem;

use crate::decimal::decimal_digits;
use crate::decimal::u32_to_string;
use vstd::prelude::*;

verus! {

/// One recorded action directive, kept in call order.
#[derive(Clone, Copy, Debug, PartialEq, Eq, Structural)]
pub enum Action {
    /// Update the app, and validate the installation afterwards if the
    /// flag is set.
    AppUpdate(App, bool),
    /// Download the workshop item, published under the given app.
    WorkshopDownloadItem(App, WorkshopItem),
}

/// The recorded state of a builder, as seen by specifications: the path of
/// the external executable, the two singleton directives, and the action
/// directives in call order.
pub struct SteamCmdView {
    pub steamcmd: Seq<char>,
    pub force_install_dir: Option<Seq<char>>,
    pub user: Option<Seq<char>>,
    pub actions: Seq<Action>,
}

impl SteamCmdView {
    /// The state after recording an install directory: only that singleton
    /// changes, and a previous value is discarded.
    pub open spec fn with_force_install_dir(self, dir: Seq<char>) -> SteamCmdView {
        SteamCmdView { force_install_dir: Some(dir), ..self }
    }

    /// The state after recording a login user: only that singleton changes,
    /// and a previous value is discarded.
    pub open spec fn with_user(self, user: Seq<char>) -> SteamCmdView {
        SteamCmdView { user: Some(user), ..self }
    }

    /// The state after recording one more action directive.
    pub open spec fn with_action(self, action: Action) -> SteamCmdView {
        SteamCmdView { actions: self.actions.push(action), ..self }
    }
}

/// Tokens of the install-directory directive: nothing if it was never set,
/// else the directive token followed by the path.
pub open spec fn dir_tokens(dir: Option<Seq<char>>) -> Seq<Seq<char>> {
    match dir {
        Some(d) => seq!["+force_install_dir"@, d],
        None => Seq::empty(),
    }
}

/// Tokens of the authentication directive: nothing if no user was set,
/// else the directive token followed by the user name.
pub open spec fn login_tokens(user: Option<Seq<char>>) -> Seq<Seq<char>> {
    match user {
        Some(u) => seq!["+login"@, u],
        None => Seq::empty(),
    }
}

/// Tokens of one action directive. A validated update carries its
/// validation token immediately after its own app id.
pub open spec fn action_tokens(action: Action) -> Seq<Seq<char>> {
    match action {
        Action::AppUpdate(app, validate) => if validate {
            seq!["+app_update"@, decimal_digits(app@ as nat), "validate"@]
        } else {
            seq!["+app_update"@, decimal_digits(app@ as nat)]
        },
        Action::WorkshopDownloadItem(app, item) => seq![
            "+workshop_download_item"@,
            decimal_digits(app@ as nat),
            decimal_digits(item@ as nat),
        ],
    }
}

/// Tokens of a sequence of action directives, concatenated in call order.
pub open spec fn actions_tokens(actions: Seq<Action>) -> Seq<Seq<char>>
    decreases actions.len(),
{
    if actions.len() == 0 {
        Seq::empty()
    } else {
        action_tokens(actions.first()) + actions_tokens(actions.drop_first())
    }
}

/// The full rendered argument sequence of a recorded builder state:
/// install directory first, login second, then the actions in call order.
pub open spec fn render_args(v: SteamCmdView) -> Seq<Seq<char>> {
    dir_tokens(v.force_install_dir) + login_tokens(v.user) + actions_tokens(v.actions)
}

/// As [`render_args`], with the terminal quit token appended.
pub open spec fn render_quit_args(v: SteamCmdView) -> Seq<Seq<char>> {
    render_args(v).push("+quit"@)
}

/// Builder for one invocation of the external tool.
///
/// Directives accumulate through the chained, self-consuming recording
/// calls; [`SteamCmd::build`] or [`SteamCmd::quit`] consumes the builder and
/// renders the flat token sequence.
#[derive(Debug)]
pub struct SteamCmd {
    steamcmd: String,
    force_install_dir: Option<String>,
    user: Option<String>,
    actions: Vec<Action>,
}

impl View for SteamCmd {
    type V = SteamCmdView;

    closed spec fn view(&self) -> SteamCmdView {
        SteamCmdView {
            steamcmd: self.steamcmd@,
            force_install_dir: self.force_install_dir.deep_view(),
            user: self.user.deep_view(),
            actions: self.actions@,
        }
    }
}

/// Appends one token, extending the rendered view by the token's characters.
fn push_token(args: &mut Vec<String>, token: String)
    ensures
        final(args).deep_view() == old(args).deep_view().push(token@),
{
    let ghost pre = args.deep_view();
    args.push(token);
    proof {
        assert(args.deep_view() =~= pre.push(token@));
    }
}

impl SteamCmd {
    /// A fresh builder for the executable at the given path, with no
    /// directives recorded yet.
    pub fn new(steamcmd: String) -> (r: Self)
        ensures
            r@ == (SteamCmdView {
                steamcmd: steamcmd@,
                force_install_dir: None,
                user: None,
                actions: Seq::empty(),
            }),
    {
        SteamCmd { steamcmd, force_install_dir: None, user: None, actions: Vec::new() }
    }

    /// Force the installation directory to the given path. At most one
    /// directory is kept: a repeated call discards the earlier value.
    pub fn force_install_dir(self, dir: String) -> (r: Self)
        ensures
            r@ == self@.with_force_install_dir(dir@),
    {
        let mut s = self;
        s.force_install_dir = Some(dir);
        s
    }

    /// Log in as the given user. At most one user is kept: a repeated call
    /// discards the earlier value.
    pub fn user(self, user: String) -> (r: Self)
        ensures
            r@ == self@.with_user(user@),
    {
        let mut s = self;
        s.user = Some(user);
        s
    }

    /// Update the app with the given id, validating the installation
    /// afterwards if `validate` is set. Repeatable; call order is kept.
    pub fn app_update(self, app: App, validate: bool) -> (r: Self)
        ensures
            r@ == self@.with_action(Action::AppUpdate(app, validate)),
    {
        let mut s = self;
        s.actions.push(Action::AppUpdate(app, validate));
        s
    }

    /// Download the given workshop item of the given app. Repeatable; call
    /// order is kept, interleaved with app updates as recorded.
    pub fn workshop_download_item(self, app: App, workshop_item: WorkshopItem) -> (r: Self)
        ensures
            r@ == self@.with_action(Action::WorkshopDownloadItem(app, workshop_item)),
    {
        let mut s = self;
        s.actions.push(Action::WorkshopDownloadItem(app, workshop_item));
        s
    }

    /// Render the builder into the executable's path and the flat argument
    /// sequence, without a terminal quit token (for sessions that stay
    /// open). Consumes the builder: this is the one-shot, terminal render.
    pub fn build(self) -> (r: (String, Vec<String>))
        ensures
            r.0@ == self@.steamcmd,
            r.1.deep_view() == render_args(self@),
    {
        let ghost v = self@;
        let SteamCmd { steamcmd, force_install_dir, user, actions } = self;
        let mut args: Vec<String> = Vec::new();
        proof {
            assert(args.deep_view() =~= Seq::<Seq<char>>::empty());
        }
        if let Some(dir) = force_install_dir {
            push_token(&mut args, "+force_install_dir".to_owned());
            push_token(&mut args, dir);
        }
        proof {
            assert(args.deep_view() =~= dir_tokens(v.force_install_dir));
        }
        if let Some(u) = user {
            push_token(&mut args, "+login".to_owned());
            push_token(&mut args, u);
        }
        proof {
            assert(args.deep_view() =~= dir_tokens(v.force_install_dir) + login_tokens(v.user));
        }
        let mut i: usize = 0;
        while i < actions.len()
            invariant
                i <= actions.len(),
                actions@ == v.actions,
                args.deep_view() == dir_tokens(v.force_install_dir) + login_tokens(v.user)
                    + actions_tokens(v.actions.take(i as int)),
            decreases actions.len() - i,
        {
            let ghost pre = args.deep_view();
            match actions[i] {
                Action::AppUpdate(app, validate) => {
                    push_token(&mut args, "+app_update".to_owned());
                    push_token(&mut args, u32_to_string(app.0));
                    if validate {
                        push_token(&mut args, "validate".to_owned());
                    }
                },
                Action::WorkshopDownloadItem(app, item) => {
                    push_token(&mut args, "+workshop_download_item".to_owned());
                    push_token(&mut args, u32_to_string(app.0));
                    push_token(&mut args, u32_to_string(item.0));
                },
            }
            proof {
                assert(args.deep_view() =~= pre + action_tokens(v.actions[i as int]));
                lemma_actions_tokens_take_one_more(v.actions, i as int);
                assert(args.deep_view() =~= dir_tokens(v.force_install_dir) + login_tokens(v.user)
                    + actions_tokens(v.actions.take(i as int + 1)));
            }
            i = i + 1;
        }
        proof {
            assert(v.actions.take(actions@.len() as int) =~= v.actions);
        }
        (steamcmd, args)
    }

    /// Quit the tool at the end of the session: render as
    /// [`SteamCmd::build`] does, with the terminal quit token appended as
    /// the very last token. Consumes the builder.
    pub fn quit(self) -> (r: (String, Vec<String>))
        ensures
            r.0@ == self@.steamcmd,
            r.1.deep_view() == render_quit_args(self@),
    {
        let (steamcmd, mut args) = self.build();
        push_token(&mut args, "+quit".to_owned());
        (steamcmd, args)
    }
}

/// The tokens of a concatenation of action sequences are the concatenation
/// of their tokens.
pub proof fn lemma_actions_tokens_concat(a: Seq<Action>, b: Seq<Action>)
    ensures
        actions_tokens(a + b) == actions_tokens(a) + actions_tokens(b),
    decreases a.len(),
{
    if a.len() == 0 {
        assert(a + b =~= b);
        assert(actions_tokens(a) + actions_tokens(b) =~= actions_tokens(b));
    } else {
        assert((a + b).len() > 0);
        assert((a + b).first() == a.first());
        assert((a + b).drop_first() =~= a.drop_first() + b);
        lemma_actions_tokens_concat(a.drop_first(), b);
        assert(actions_tokens(a + b) =~= actions_tokens(a) + actions_tokens(b));
    }
}

/// The tokens of a single action are that action's tokens.
proof fn lemma_actions_tokens_singleton(a: Action)
    ensures
        actions_tokens(seq![a]) == action_tokens(a),
{
    let s = seq![a];
    assert(s.drop_first() =~= Seq::<Action>::empty());
    assert(actions_tokens(Seq::<Action>::empty()) == Seq::<Seq<char>>::empty());
    assert(actions_tokens(s) =~= action_tokens(a));
}

/// Taking one more action extends the rendered tokens by exactly that
/// action's tokens.
proof fn lemma_actions_tokens_take_one_more(s: Seq<Action>, i: int)
    requires
        0 <= i < s.len(),
    ensures
        actions_tokens(s.take(i + 1)) == actions_tokens(s.take(i)) + action_tokens(s[i]),
{
    assert(s.take(i + 1) =~= s.take(i) + seq![s[i]]);
    lemma_actions_tokens_concat(s.take(i), seq![s[i]]);
    lemma_actions_tokens_singleton(s[i]);
}

/// Law: rendering is deterministic and total — two builders that recorded
/// the same calls render byte-identical token sequences, with or without
/// the terminal quit token.
pub proof fn lemma_render_deterministic(a: SteamCmdView, b: SteamCmdView)
    requires
        a == b,
    ensures
        render_args(a) == render_args(b),
        render_quit_args(a) == render_quit_args(b),
{
}

/// Law: the install-directory and login singletons render in the fixed
/// relative order {directory, user}: recording them in either order gives
/// the same rendered sequence.
pub proof fn lemma_dir_user_fixed_order(v: SteamCmdView, dir: Seq<char>, user: Seq<char>)
    ensures
        render_args(v.with_force_install_dir(dir).with_user(user)) == render_args(
            v.with_user(user).with_force_install_dir(dir),
        ),
{
}

/// Law: when both singletons are present, the rendered sequence opens with
/// the install-directory directive and then the login directive, before any
/// action token.
pub proof fn lemma_dir_renders_before_user(v: SteamCmdView, dir: Seq<char>, user: Seq<char>)
    requires
        v.force_install_dir == Some(dir),
        v.user == Some(user),
    ensures
        render_args(v).len() >= 4,
        render_args(v)[0] == "+force_install_dir"@,
        render_args(v)[1] == dir,
        render_args(v)[2] == "+login"@,
        render_args(v)[3] == user,
{
    let d = dir_tokens(v.force_install_dir);
    let l = login_tokens(v.user);
    assert(d == seq!["+force_install_dir"@, dir]);
    assert(l == seq!["+login"@, user]);
    assert(render_args(v) == d + l + actions_tokens(v.actions));
    assert(render_args(v)[0] == d[0]);
    assert(render_args(v)[1] == d[1]);
    assert(render_args(v)[2] == l[0]);
    assert(render_args(v)[3] == l[1]);
}

/// Law: the action directives render in exactly the order they were
/// recorded — the rendered sequence splits, around any action, into the
/// tokens of the earlier actions, that action's own tokens, and the tokens
/// of the later actions.
pub proof fn lemma_actions_in_call_order(s: Seq<Action>, i: int)
    requires
        0 <= i < s.len(),
    ensures
        actions_tokens(s) == actions_tokens(s.take(i)) + action_tokens(s[i]) + actions_tokens(
            s.skip(i + 1),
        ),
{
    assert(s =~= s.take(i) + seq![s[i]] + s.skip(i + 1));
    lemma_actions_tokens_concat(s.take(i) + seq![s[i]], s.skip(i + 1));
    lemma_actions_tokens_concat(s.take(i), seq![s[i]]);
    lemma_actions_tokens_singleton(s[i]);
}

/// Law: a validated update's validation token renders immediately after
/// that update's own app-id token, never after another action's tokens.
pub proof fn lemma_validate_follows_own_update(v: SteamCmdView, i: int, app: App)
    requires
        0 <= i < v.actions.len(),
        v.actions[i] == Action::AppUpdate(app, true),
    ensures
        ({
            let off = (dir_tokens(v.force_install_dir).len() + login_tokens(v.user).len()
                + actions_tokens(v.actions.take(i)).len()) as int;
            &&& off + 3 <= render_args(v).len()
            &&& render_args(v)[off] == "+app_update"@
            &&& render_args(v)[off + 1] == decimal_digits(app@ as nat)
            &&& render_args(v)[off + 2] == "validate"@
        }),
{
    lemma_actions_in_call_order(v.actions, i);
    assert(action_tokens(v.actions[i]) == seq![
        "+app_update"@,
        decimal_digits(app@ as nat),
        "validate"@,
    ]);
}

/// Law: recording the install directory twice keeps only the second value
/// in the render.
pub proof fn lemma_second_install_dir_wins(v: SteamCmdView, d1: Seq<char>, d2: Seq<char>)
    ensures
        render_args(v.with_force_install_dir(d1).with_force_install_dir(d2)) == render_args(
            v.with_force_install_dir(d2),
        ),
{
}

} // verus!
