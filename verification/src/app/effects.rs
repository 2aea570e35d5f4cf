//! Effects that the session asks of the outside world.

use vstd::prelude::*;

use crate::ask_ai::{AskAiRequest, RequestView};
use crate::custom_command::{BindingView, CustomCommandBinding};
use crate::editor::EditorRequest;
use crate::review_source::{MutationView, WorktreeMutation};

verus! {

/// Text for the clipboard, and what to say once it is there.
#[derive(Debug)]
pub struct ClipboardRequest {
    pub text: String,
    pub success_message: String,
}

/// What a [`ClipboardRequest`] holds.
pub struct ClipboardView {
    pub text: Seq<char>,
    pub success_message: Seq<char>,
}

impl View for ClipboardRequest {
    type V = ClipboardView;

    open spec fn view(&self) -> ClipboardView {
        ClipboardView { text: self.text@, success_message: self.success_message@ }
    }
}

impl ClipboardRequest {
    pub fn new(text: String, success_message: &str) -> (request: Self)
        ensures
            request@ == (ClipboardView { text: text@, success_message: success_message@ }),
    {
        ClipboardRequest { text, success_message: success_message.to_owned() }
    }

    pub fn text(&self) -> (text: &str)
        ensures
            text@ == self@.text,
    {
        self.text.as_str()
    }

    pub fn success_message(&self) -> (message: &str)
        ensures
            message@ == self@.success_message,
    {
        self.success_message.as_str()
    }
}

#[derive(Debug)]
pub enum AppEffect {
    /// Open a file of the worktree in the editor.
    OpenEditor(EditorRequest),
    RunCustomCommand(CustomCommandBinding),
    CancelCustomCommand,
    RunAskAi(AskAiRequest),
    RunUnpublishedSummary,
    CancelAskAi,
    CopyToClipboard(ClipboardRequest),
    /// Change the worktree or the index, then load the diff again.
    ApplyMutation(WorktreeMutation),
    /// Load the diff again.
    ReloadReviewSource { preserve_scroll: bool },
}

/// What an [`AppEffect`] holds.
pub enum EffectView {
    OpenEditor { path: Seq<char>, line: Option<u32> },
    RunCustomCommand(BindingView),
    CancelCustomCommand,
    RunAskAi(RequestView),
    RunUnpublishedSummary,
    CancelAskAi,
    CopyToClipboard(ClipboardView),
    ApplyMutation(MutationView),
    ReloadReviewSource { preserve_scroll: bool },
}

#[derive(Debug, Clone, Copy, PartialEq, Eq, Structural)]
pub enum EffectKind {
    OpenEditor,
    RunCustomCommand,
    CancelCustomCommand,
    RunAskAi,
    RunUnpublishedSummary,
    CancelAskAi,
    CopyToClipboard,
    ApplyMutation,
    ReloadReviewSource,
}

impl View for AppEffect {
    type V = EffectView;

    open spec fn view(&self) -> EffectView {
        match self {
            AppEffect::OpenEditor(request) => EffectView::OpenEditor {
                path: request.path@,
                line: request.line,
            },
            AppEffect::RunCustomCommand(command) => EffectView::RunCustomCommand(command@),
            AppEffect::CancelCustomCommand => EffectView::CancelCustomCommand,
            AppEffect::RunAskAi(request) => EffectView::RunAskAi(request@),
            AppEffect::RunUnpublishedSummary => EffectView::RunUnpublishedSummary,
            AppEffect::CancelAskAi => EffectView::CancelAskAi,
            AppEffect::CopyToClipboard(request) => EffectView::CopyToClipboard(request@),
            AppEffect::ApplyMutation(mutation) => EffectView::ApplyMutation(mutation@),
            AppEffect::ReloadReviewSource { preserve_scroll } => EffectView::ReloadReviewSource {
                preserve_scroll: *preserve_scroll,
            },
        }
    }
}

impl EffectView {
    pub open spec fn kind(self) -> EffectKind {
        match self {
            EffectView::OpenEditor { .. } => EffectKind::OpenEditor,
            EffectView::RunCustomCommand(_) => EffectKind::RunCustomCommand,
            EffectView::CancelCustomCommand => EffectKind::CancelCustomCommand,
            EffectView::RunAskAi(_) => EffectKind::RunAskAi,
            EffectView::RunUnpublishedSummary => EffectKind::RunUnpublishedSummary,
            EffectView::CancelAskAi => EffectKind::CancelAskAi,
            EffectView::CopyToClipboard(_) => EffectKind::CopyToClipboard,
            EffectView::ApplyMutation(_) => EffectKind::ApplyMutation,
            EffectView::ReloadReviewSource { .. } => EffectKind::ReloadReviewSource,
        }
    }
}

impl AppEffect {
    pub fn kind(&self) -> (kind: EffectKind)
        ensures
            kind == self@.kind(),
    {
        match self {
            AppEffect::OpenEditor(_) => EffectKind::OpenEditor,
            AppEffect::RunCustomCommand(_) => EffectKind::RunCustomCommand,
            AppEffect::CancelCustomCommand => EffectKind::CancelCustomCommand,
            AppEffect::RunAskAi(_) => EffectKind::RunAskAi,
            AppEffect::RunUnpublishedSummary => EffectKind::RunUnpublishedSummary,
            AppEffect::CancelAskAi => EffectKind::CancelAskAi,
            AppEffect::CopyToClipboard(_) => EffectKind::CopyToClipboard,
            AppEffect::ApplyMutation(_) => EffectKind::ApplyMutation,
            AppEffect::ReloadReviewSource { .. } => EffectKind::ReloadReviewSource,
        }
    }
}

pub open spec fn effect_views(effects: Seq<AppEffect>) -> Seq<EffectView> {
    effects.map_values(|effect: AppEffect| effect@)
}

/// Effects without those of a kind.
pub open spec fn without(effects: Seq<EffectView>, kind: EffectKind) -> Seq<EffectView>
    decreases effects.len(),
{
    if effects.len() == 0 {
        seq![]
    } else {
        let before = without(effects.drop_last(), kind);
        if effects.last().kind() == kind { before } else { before.push(effects.last()) }
    }
}

/// Effects with one more, which takes the place of those of its kind.
pub open spec fn queued(effects: Seq<EffectView>, effect: EffectView) -> Seq<EffectView> {
    without(effects, effect.kind()).push(effect)
}

pub fn clear_effects(effects: &mut Vec<AppEffect>, kind: EffectKind)
    ensures
        effect_views(final(effects)@) == without(effect_views(old(effects)@), kind),
{
    let ghost before = effects@;
    let ghost views = effect_views(before);
    let ghost mut done: int = 0;
    let mut i: usize = 0;
    assert(views.take(0) =~= seq![]);
    assert(before.skip(0) =~= before);
    assert(effect_views(effects@.take(0)) =~= seq![]);
    while i < effects.len()
        invariant
            0 <= done <= before.len(),
            i <= effects@.len(),
            views == effect_views(before),
            effects@.skip(i as int) == before.skip(done),
            effect_views(effects@.take(i as int)) == without(views.take(done), kind),
        decreases effects@.len() - i,
    {
        let ghost now = effects@;
        assert(before.skip(done).len() == now.skip(i as int).len());
        assert(now[i as int] == now.skip(i as int)[0]);
        assert(before[done] == before.skip(done)[0]);
        assert(views.take(done + 1).drop_last() =~= views.take(done));
        assert(views.take(done + 1).last() == before[done]@);
        if effects[i].kind() == kind {
            effects.remove(i);
            assert(effects@.take(i as int) =~= now.take(i as int));
            assert(effects@.skip(i as int) =~= now.skip(i as int).skip(1));
            assert(before.skip(done + 1) =~= before.skip(done).skip(1));
        } else {
            assert(effect_views(now.take(i + 1)) =~= effect_views(now.take(i as int)).push(
                now[i as int]@,
            ));
            assert(now.skip(i + 1) =~= now.skip(i as int).skip(1));
            assert(before.skip(done + 1) =~= before.skip(done).skip(1));
            i = i + 1;
        }
        proof {
            done = done + 1;
        }
    }
    assert(effects@.skip(i as int).len() == 0);
    assert(views.take(done) =~= views);
    assert(effects@.take(i as int) =~= effects@);
}

/// Queues an effect in the place of those of its kind.
pub fn queue_effect(effects: &mut Vec<AppEffect>, effect: AppEffect)
    ensures
        effect_views(final(effects)@) == queued(effect_views(old(effects)@), effect@),
{
    clear_effects(effects, effect.kind());
    let ghost cleared = effects@;
    effects.push(effect);
    assert(effect_views(effects@) =~= effect_views(cleared).push(effect@));
}

pub proof fn without_leaves_others(effects: Seq<EffectView>, kind: EffectKind, effect: EffectView)
    ensures
        without(effects, kind).contains(effect) <==> effects.contains(effect) && effect.kind()
            != kind,
    decreases effects.len(),
{
    if effects.len() > 0 {
        let rest = effects.drop_last();
        without_leaves_others(rest, kind, effect);
        assert(effects =~= rest.push(effects.last()));
        let before = without(rest, kind);
        if rest.contains(effect) {
            let i = choose|i: int| 0 <= i < rest.len() && rest[i] == effect;
            assert(effects[i] == effect);
        }
        if effects.contains(effect) && !rest.contains(effect) {
            let i = choose|i: int| 0 <= i < effects.len() && effects[i] == effect;
            assert(i == effects.len() - 1) by {
                if i < effects.len() - 1 {
                    assert(rest[i] == effect);
                }
            }
        }
        if effects.last() == effect {
            assert(effects[effects.len() - 1] == effect);
        }
        if effects.last().kind() != kind {
            let all = before.push(effects.last());
            if before.contains(effect) {
                let i = choose|i: int| 0 <= i < before.len() && before[i] == effect;
                assert(all[i] == effect);
            }
            if effects.last() == effect {
                assert(all[before.len() as int] == effect);
            }
            if all.contains(effect) && effects.last() != effect {
                let i = choose|i: int| 0 <= i < all.len() && all[i] == effect;
                assert(before[i] == effect);
            }
        }
    }
}

/// Of each kind that is queued in the place of others there is one effect, the last
/// one asked for, and queueing leaves all others.
pub proof fn queueing_replaces_its_kind(
    effects: Seq<EffectView>,
    effect: EffectView,
    other: EffectView,
)
    ensures
        other.kind() == effect.kind() ==> (queued(effects, effect).contains(other) <==> other
            == effect),
        other.kind() != effect.kind() ==> (queued(effects, effect).contains(other)
            <==> effects.contains(other)),
{
    let left = without(effects, effect.kind());
    without_leaves_others(effects, effect.kind(), other);
    let all = left.push(effect);
    assert(all[left.len() as int] == effect);
    if left.contains(other) {
        let i = choose|i: int| 0 <= i < left.len() && left[i] == other;
        assert(all[i] == other);
    }
    if all.contains(other) && other != effect {
        let i = choose|i: int| 0 <= i < all.len() && all[i] == other;
        assert(left[i] == other);
    }
}

} // verus!
