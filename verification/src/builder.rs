//! Assembling and validating a new contract before it is sent.

use crate::error::CovenantError;
use crate::error::CovenantErrorView;
use crate::text::copy_optional;
use crate::text::copy_texts;
use crate::text::decimal;
use crate::text::lemma_decimal_round_trip;
use crate::text::push_decimal;
use vstd::prelude::*;
use vstd::string::StringExecFns;

verus! {

/// The identifier of the step at `position`, counted from one: `step-N`.
pub open spec fn step_id(position: nat) -> Seq<char> {
    "step-"@ + decimal(position)
}

/// Renders the identifier of the step at `position`, counted from one.
pub fn make_step_id(position: usize) -> (r: String)
    ensures
        r@ == step_id(position as nat),
{
    let mut id = String::from_str("step-");
    push_decimal(&mut id, position as u64);
    id
}

/// A step as the builder holds it: a description and an optional document.
#[derive(Debug, Clone)]
pub struct StepDraft {
    pub description: String,
    pub magic_spell: Option<serde_json::Value>,
}

/// Mathematical model of a [`StepDraft`].
pub struct StepDraftView {
    pub description: Seq<char>,
    pub magic_spell: Option<serde_json::Value>,
}

impl View for StepDraft {
    type V = StepDraftView;

    open spec fn view(&self) -> StepDraftView {
        StepDraftView { description: self.description@, magic_spell: self.magic_spell }
    }
}

impl DeepView for StepDraft {
    type V = StepDraftView;

    open spec fn deep_view(&self) -> StepDraftView {
        self@
    }
}

/// A step as it is sent: the draft with its identifier.
#[derive(Debug, Clone)]
pub struct StepPayload {
    pub id: String,
    pub description: String,
    pub magic_spell: Option<serde_json::Value>,
}

/// Mathematical model of a [`StepPayload`].
pub struct StepPayloadView {
    pub id: Seq<char>,
    pub description: Seq<char>,
    pub magic_spell: Option<serde_json::Value>,
}

impl View for StepPayload {
    type V = StepPayloadView;

    open spec fn view(&self) -> StepPayloadView {
        StepPayloadView {
            id: self.id@,
            description: self.description@,
            magic_spell: self.magic_spell,
        }
    }
}

impl DeepView for StepPayload {
    type V = StepPayloadView;

    open spec fn deep_view(&self) -> StepPayloadView {
        self@
    }
}

/// The body that creates a contract. An unset optional field is `None`, which
/// is not the same as an empty text.
#[derive(Debug, Clone)]
pub struct ContractPayload {
    pub title: String,
    pub description: String,
    pub participants: Vec<String>,
    pub steps: Vec<StepPayload>,
    pub product_uuid: Option<String>,
    pub bdo_location: Option<String>,
}

/// Mathematical model of a [`ContractPayload`].
pub struct ContractPayloadView {
    pub title: Seq<char>,
    pub description: Seq<char>,
    pub participants: Seq<Seq<char>>,
    pub steps: Seq<StepPayloadView>,
    pub product_uuid: Option<Seq<char>>,
    pub bdo_location: Option<Seq<char>>,
}

impl View for ContractPayload {
    type V = ContractPayloadView;

    open spec fn view(&self) -> ContractPayloadView {
        ContractPayloadView {
            title: self.title@,
            description: self.description@,
            participants: self.participants.deep_view(),
            steps: self.steps.deep_view(),
            product_uuid: self.product_uuid.deep_view(),
            bdo_location: self.bdo_location.deep_view(),
        }
    }
}

/// Mathematical model of a [`ContractBuilder`]: what has been set and added
/// so far, in the order of the calls.
pub struct ContractBuilderView {
    pub title: Option<Seq<char>>,
    pub description: Option<Seq<char>>,
    pub participants: Seq<Seq<char>>,
    pub steps: Seq<StepDraftView>,
    pub product_uuid: Option<Seq<char>>,
    pub bdo_location: Option<Seq<char>>,
}

impl ContractBuilderView {
    /// Nothing set, nothing added.
    pub open spec fn empty() -> ContractBuilderView {
        ContractBuilderView {
            title: None,
            description: None,
            participants: Seq::empty(),
            steps: Seq::empty(),
            product_uuid: None,
            bdo_location: None,
        }
    }

    pub open spec fn with_title(self, title: Seq<char>) -> ContractBuilderView {
        ContractBuilderView { title: Some(title), ..self }
    }

    pub open spec fn with_description(self, description: Seq<char>) -> ContractBuilderView {
        ContractBuilderView { description: Some(description), ..self }
    }

    pub open spec fn with_participants(self, added: Seq<Seq<char>>) -> ContractBuilderView {
        ContractBuilderView { participants: self.participants + added, ..self }
    }

    pub open spec fn with_step(
        self,
        description: Seq<char>,
        magic_spell: Option<serde_json::Value>,
    ) -> ContractBuilderView {
        ContractBuilderView {
            steps: self.steps.push(StepDraftView { description, magic_spell }),
            ..self
        }
    }

    pub open spec fn with_product_uuid(self, product_uuid: Seq<char>) -> ContractBuilderView {
        ContractBuilderView { product_uuid: Some(product_uuid), ..self }
    }

    pub open spec fn with_bdo_location(self, bdo_location: Seq<char>) -> ContractBuilderView {
        ContractBuilderView { bdo_location: Some(bdo_location), ..self }
    }

    /// Why the builder cannot be built, if it cannot: the first of a missing
    /// title, fewer than two participants, and no step.
    pub open spec fn rejection(self) -> Option<Seq<char>> {
        if self.title is None {
            Some("title required"@)
        } else if self.participants.len() < 2 {
            Some("insufficient participants"@)
        } else if self.steps.len() == 0 {
            Some("no steps"@)
        } else {
            None
        }
    }

    /// The step sent for the draft at `index`, counted from zero.
    pub open spec fn step_payload(self, index: int) -> StepPayloadView {
        StepPayloadView {
            id: step_id((index + 1) as nat),
            description: self.steps[index].description,
            magic_spell: self.steps[index].magic_spell,
        }
    }

    /// The body sent for a builder that is not rejected.
    pub open spec fn payload(self) -> ContractPayloadView {
        ContractPayloadView {
            title: match self.title {
                Some(title) => title,
                None => Seq::empty(),
            },
            description: match self.description {
                Some(description) => description,
                None => Seq::empty(),
            },
            participants: self.participants,
            steps: Seq::new(self.steps.len(), |index: int| self.step_payload(index)),
            product_uuid: self.product_uuid,
            bdo_location: self.bdo_location,
        }
    }

    /// What building yields: the rejection as a validation error, else the body.
    pub open spec fn build(self) -> Result<ContractPayloadView, CovenantErrorView> {
        match self.rejection() {
            Some(reason) => Err(CovenantErrorView::ValidationError(reason)),
            None => Ok(self.payload()),
        }
    }
}

/// The model of what a call of [`ContractBuilder::build`] returned.
pub open spec fn build_outcome(r: Result<ContractPayload, CovenantError>) -> Result<
    ContractPayloadView,
    CovenantErrorView,
> {
    match r {
        Ok(payload) => Ok(payload@),
        Err(error) => Err(error@),
    }
}

/// The views of the texts in a slice, in order.
pub open spec fn texts(items: Seq<&str>) -> Seq<Seq<char>> {
    Seq::new(items.len(), |i: int| items[i]@)
}

/// Accumulates the fields of a new contract; [`ContractBuilder::build`]
/// validates them and yields the body to send.
#[derive(Debug, Clone)]
pub struct ContractBuilder {
    title: Option<String>,
    description: Option<String>,
    participants: Vec<String>,
    steps: Vec<StepDraft>,
    product_uuid: Option<String>,
    bdo_location: Option<String>,
}

impl View for ContractBuilder {
    type V = ContractBuilderView;

    closed spec fn view(&self) -> ContractBuilderView {
        ContractBuilderView {
            title: self.title.deep_view(),
            description: self.description.deep_view(),
            participants: self.participants.deep_view(),
            steps: self.steps.deep_view(),
            product_uuid: self.product_uuid.deep_view(),
            bdo_location: self.bdo_location.deep_view(),
        }
    }
}

impl ContractBuilder {
    /// A builder with nothing set.
    pub fn new() -> (r: ContractBuilder)
        ensures
            r@ == ContractBuilderView::empty(),
    {
        let r = ContractBuilder {
            title: None,
            description: None,
            participants: Vec::new(),
            steps: Vec::new(),
            product_uuid: None,
            bdo_location: None,
        };
        assert(r.participants.deep_view() =~= Seq::<Seq<char>>::empty());
        assert(r.steps.deep_view() =~= Seq::<StepDraftView>::empty());
        r
    }

    /// Sets the title, in place of an earlier one.
    pub fn title(self, title: &str) -> (r: ContractBuilder)
        ensures
            r@ == self@.with_title(title@),
    {
        let mut r = self;
        r.title = Some(String::from_str(title));
        r
    }

    /// Sets the description, in place of an earlier one.
    pub fn description(self, description: &str) -> (r: ContractBuilder)
        ensures
            r@ == self@.with_description(description@),
    {
        let mut r = self;
        r.description = Some(String::from_str(description));
        r
    }

    /// Adds one participant at the end. A participant may be added twice.
    pub fn participant(self, participant: &str) -> (r: ContractBuilder)
        ensures
            r@ == self@.with_participants(seq![participant@]),
    {
        let mut r = self;
        r.participants.push(String::from_str(participant));
        assert(r.participants.deep_view() =~= self.participants.deep_view() + seq![participant@]);
        r
    }

    /// Adds the participants at the end, in their order.
    pub fn participants(self, participants: &[&str]) -> (r: ContractBuilder)
        ensures
            r@ == self@.with_participants(texts(participants@)),
    {
        let mut r = self;
        let mut i: usize = 0;
        while i < participants.len()
            invariant
                i <= participants.len(),
                r.participants.deep_view() == self.participants.deep_view() + texts(
                    participants@,
                ).take(i as int),
                r.title == self.title,
                r.description == self.description,
                r.steps == self.steps,
                r.product_uuid == self.product_uuid,
                r.bdo_location == self.bdo_location,
            decreases participants.len() - i,
        {
            let ghost before = r.participants.deep_view();
            r.participants.push(String::from_str(participants[i]));
            assert(r.participants.deep_view() =~= before.push(participants[i as int]@));
            i = i + 1;
        }
        assert(texts(participants@).take(i as int) =~= texts(participants@));
        r
    }

    /// Adds a step at the end, without a document.
    pub fn step(self, description: &str) -> (r: ContractBuilder)
        ensures
            r@ == self@.with_step(description@, None),
    {
        let mut r = self;
        r.steps.push(StepDraft { description: String::from_str(description), magic_spell: None });
        assert(r.steps.deep_view() =~= self.steps.deep_view().push(
            StepDraftView { description: description@, magic_spell: None },
        ));
        r
    }

    /// Adds a step at the end, with a document that is passed on unread.
    pub fn step_with_magic(self, description: &str, magic_spell: serde_json::Value) -> (r:
        ContractBuilder)
        ensures
            r@ == self@.with_step(description@, Some(magic_spell)),
    {
        let mut r = self;
        r.steps.push(
            StepDraft { description: String::from_str(description), magic_spell: Some(magic_spell) },
        );
        assert(r.steps.deep_view() =~= self.steps.deep_view().push(
            StepDraftView { description: description@, magic_spell: Some(magic_spell) },
        ));
        r
    }

    /// Sets the product reference, in place of an earlier one.
    pub fn product_uuid(self, product_uuid: &str) -> (r: ContractBuilder)
        ensures
            r@ == self@.with_product_uuid(product_uuid@),
    {
        let mut r = self;
        r.product_uuid = Some(String::from_str(product_uuid));
        r
    }

    /// Sets the location reference, in place of an earlier one.
    pub fn bdo_location(self, bdo_location: &str) -> (r: ContractBuilder)
        ensures
            r@ == self@.with_bdo_location(bdo_location@),
    {
        let mut r = self;
        r.bdo_location = Some(String::from_str(bdo_location));
        r
    }

    /// Validates what has been accumulated and yields the body to send. The
    /// builder is left as it was, so a second call yields the same.
    pub fn build(&self) -> (r: Result<ContractPayload, CovenantError>)
        ensures
            build_outcome(r) == self@.build(),
            self@.title is None ==> r is Err,
            self@.participants.len() < 2 ==> r is Err,
            self@.steps.len() == 0 ==> r is Err,
            r is Err ==> r->Err_0 is ValidationError,
            r is Ok ==> r->Ok_0@.steps.len() == self@.steps.len(),
            r is Ok ==> forall|i: int|
                0 <= i < self@.steps.len() ==> (#[trigger] r->Ok_0@.steps[i]).id == step_id(
                    (i + 1) as nat,
                ),
    {
        let title = match &self.title {
            Some(title) => title.clone(),
            None => {
                return Err(CovenantError::validation("title required"));
            },
        };
        if self.participants.len() < 2 {
            return Err(CovenantError::validation("insufficient participants"));
        }
        if self.steps.len() == 0 {
            return Err(CovenantError::validation("no steps"));
        }
        let description = match &self.description {
            Some(description) => description.clone(),
            None => String::new(),
        };
        let mut steps: Vec<StepPayload> = Vec::new();
        let mut i: usize = 0;
        while i < self.steps.len()
            invariant
                i <= self.steps.len(),
                steps.len() == i,
                forall|k: int| 0 <= k < i ==> (#[trigger] steps[k])@ == self@.step_payload(k),
            decreases self.steps.len() - i,
        {
            let draft = &self.steps[i];
            let magic_spell = match &draft.magic_spell {
                Some(document) => Some(document.clone()),
                None => None,
            };
            steps.push(
                StepPayload {
                    id: make_step_id(i + 1),
                    description: draft.description.clone(),
                    magic_spell,
                },
            );
            i = i + 1;
        }
        let participants = copy_texts(&self.participants);
        let product_uuid = copy_optional(&self.product_uuid);
        let bdo_location = copy_optional(&self.bdo_location);
        let payload = ContractPayload {
            title,
            description,
            participants,
            steps,
            product_uuid,
            bdo_location,
        };
        assert(payload@.steps =~= self@.payload().steps);
        Ok(payload)
    }
}

impl Default for ContractBuilder {
    fn default() -> (r: ContractBuilder)
        ensures
            r@ == ContractBuilderView::empty(),
    {
        ContractBuilder::new()
    }
}

/// Two calls of [`ContractBuilder::build`] on one builder yield the same:
/// both an error with the same message, or both the same body.
pub proof fn lemma_build_is_repeatable(
    builder: ContractBuilder,
    first: Result<ContractPayload, CovenantError>,
    second: Result<ContractPayload, CovenantError>,
)
    requires
        call_ensures(ContractBuilder::build, (&builder,), first),
        call_ensures(ContractBuilder::build, (&builder,), second),
    ensures
        build_outcome(first) == build_outcome(second),
{
}

/// A builder that is not rejected yields a body whose steps are the added
/// steps in the order of adding, the step at place `i` (from zero) under the
/// identifier `step-` followed by `i + 1`.
pub proof fn lemma_step_ids_follow_add_order(builder: ContractBuilderView)
    requires
        builder.rejection() is None,
    ensures
        builder.build() is Ok,
        builder.build()->Ok_0.steps.len() == builder.steps.len(),
        forall|i: int|
            0 <= i < builder.steps.len() ==> {
                let step = #[trigger] builder.build()->Ok_0.steps[i];
                &&& step.id == step_id((i + 1) as nat)
                &&& step.description == builder.steps[i].description
                &&& step.magic_spell == builder.steps[i].magic_spell
            },
{
}

/// Steps at different places have different identifiers.
pub proof fn lemma_step_ids_are_distinct(first: nat, second: nat)
    requires
        first != second,
    ensures
        step_id(first) != step_id(second),
{
    lemma_decimal_round_trip(first);
    lemma_decimal_round_trip(second);
    let prefix = "step-"@.len() as int;
    assert(step_id(first).subrange(prefix, step_id(first).len() as int) =~= decimal(first));
    assert(step_id(second).subrange(prefix, step_id(second).len() as int) =~= decimal(second));
}

/// What is built names a title, at least two participants and at least one
/// step, and carries title, participants and references as they were set.
pub proof fn lemma_built_payload_is_complete(builder: ContractBuilderView)
    requires
        builder.build() is Ok,
    ensures
        builder.title == Some(builder.build()->Ok_0.title),
        builder.build()->Ok_0.participants == builder.participants,
        builder.build()->Ok_0.participants.len() >= 2,
        builder.build()->Ok_0.steps.len() >= 1,
        builder.build()->Ok_0.product_uuid == builder.product_uuid,
        builder.build()->Ok_0.bdo_location == builder.bdo_location,
        builder.description is Some ==> builder.description == Some(
            builder.build()->Ok_0.description,
        ),
        builder.description is None ==> builder.build()->Ok_0.description.len() == 0,
{
}

/// Setting the title, the description or a reference, and adding
/// participants, leaves the steps as they are and may come before or after
/// adding a step: the builder is the same either way.
pub proof fn lemma_steps_ignore_other_setters(
    builder: ContractBuilderView,
    text: Seq<char>,
    added: Seq<Seq<char>>,
    description: Seq<char>,
    magic_spell: Option<serde_json::Value>,
)
    ensures
        builder.with_title(text).steps == builder.steps,
        builder.with_description(text).steps == builder.steps,
        builder.with_participants(added).steps == builder.steps,
        builder.with_product_uuid(text).steps == builder.steps,
        builder.with_bdo_location(text).steps == builder.steps,
        builder.with_title(text).with_step(description, magic_spell) == builder.with_step(
            description,
            magic_spell,
        ).with_title(text),
        builder.with_description(text).with_step(description, magic_spell) == builder.with_step(
            description,
            magic_spell,
        ).with_description(text),
        builder.with_participants(added).with_step(description, magic_spell) == builder.with_step(
            description,
            magic_spell,
        ).with_participants(added),
        builder.with_product_uuid(text).with_step(description, magic_spell) == builder.with_step(
            description,
            magic_spell,
        ).with_product_uuid(text),
        builder.with_bdo_location(text).with_step(description, magic_spell) == builder.with_step(
            description,
            magic_spell,
        ).with_bdo_location(text),
{
}

/// A builder without a title, with fewer than two participants or without a
/// step is rejected with a validation error, and only such a builder is.
pub proof fn lemma_rejection_is_validation(builder: ContractBuilderView)
    ensures
        builder.build() is Err <==> (builder.title is None || builder.participants.len() < 2
            || builder.steps.len() == 0),
        builder.build() is Err ==> builder.build()->Err_0 is ValidationError,
{
}

} // verus!
