//! The rules the Discord plugin applies before an action is sent: the template's capabilities,
//! bulk operations (a fixed number of actions between enforced waits) and audit log reasons.
//! Times are milliseconds on a monotonic clock.
use vstd::prelude::*;
use crate::text::{append_str, str_eq};
use crate::validators::{byte_len, callable, decides, CreateCommand};

verus! {

broadcast use vstd::string::group_string_axioms;

/// How long a bulk operation may go without a wait before it expires.
pub const BULK_OP_MAX_WAIT_MS: u64 = 10000;

/// The wait of a bulk operation whose action has no entry of its own.
pub const MINIMUM_BULK_OP_WAIT_MS: u64 = 2500;

/// The number of actions a bulk operation allows between waits, unless its action says more.
pub const DEFAULT_BULK_OP_MAX_OPS: usize = 1;

/// How many actions a bulk operation allows between waits, and how long each wait lasts.
#[derive(Debug, Clone, Copy, PartialEq, Eq, Structural)]
pub struct BulkOpLimit {
    pub max_ops: usize,
    pub min_wait_ms: u64,
}

/// The limits of a bulk operation on `action` (or on any action).
pub open spec fn bulk_op_limit_spec(action: Option<Seq<char>>) -> BulkOpLimit {
    match action {
        Some(a) => if a == "create_message"@ {
            BulkOpLimit { max_ops: 1, min_wait_ms: 1200 }
        } else if a == "create_guild_role"@ {
            BulkOpLimit { max_ops: 1, min_wait_ms: 2200 }
        } else if a == "modify_guild_role"@ || a == "delete_guild_role"@ {
            BulkOpLimit { max_ops: 1, min_wait_ms: 2000 }
        } else {
            BulkOpLimit { max_ops: DEFAULT_BULK_OP_MAX_OPS, min_wait_ms: MINIMUM_BULK_OP_WAIT_MS }
        },
        None => BulkOpLimit { max_ops: DEFAULT_BULK_OP_MAX_OPS, min_wait_ms: MINIMUM_BULK_OP_WAIT_MS },
    }
}

/// The limits of a bulk operation on `action` (or on any action).
pub fn bulk_op_limit(action: Option<&str>) -> (r: BulkOpLimit)
    ensures
        r == bulk_op_limit_spec(match action { Some(a) => Some(a@), None => None::<Seq<char>> }),
{
    match action {
        Some(a) => {
            if str_eq(a, "create_message") {
                BulkOpLimit { max_ops: 1, min_wait_ms: 1200 }
            } else if str_eq(a, "create_guild_role") {
                BulkOpLimit { max_ops: 1, min_wait_ms: 2200 }
            } else if str_eq(a, "modify_guild_role") || str_eq(a, "delete_guild_role") {
                BulkOpLimit { max_ops: 1, min_wait_ms: 2000 }
            } else {
                BulkOpLimit { max_ops: DEFAULT_BULK_OP_MAX_OPS, min_wait_ms: MINIMUM_BULK_OP_WAIT_MS }
            }
        },
        None => BulkOpLimit { max_ops: DEFAULT_BULK_OP_MAX_OPS, min_wait_ms: MINIMUM_BULK_OP_WAIT_MS },
    }
}

/// A bulk operation in progress.
#[derive(Debug)]
pub struct BulkOpData {
    /// Actions performed since the last wait.
    pub op_performed: usize,
    /// Actions allowed between waits.
    pub max_ops: usize,
    /// When the operation last waited (or started).
    pub last_waited: u64,
    /// How long each wait lasts.
    pub min_wait: u64,
    /// The one action the operation may perform, if it is bound to one.
    pub action: Option<String>,
}

/// A bulk operation in mathematical form.
pub struct BulkView {
    pub op_performed: usize,
    pub max_ops: usize,
    pub last_waited: u64,
    pub min_wait: u64,
    pub action: Option<Seq<char>>,
}

impl View for BulkOpData {
    type V = BulkView;

    open spec fn view(&self) -> BulkView {
        BulkView {
            op_performed: self.op_performed,
            max_ops: self.max_ops,
            last_waited: self.last_waited,
            min_wait: self.min_wait,
            action: match self.action {
                Some(a) => Some(a@),
                None => None,
            },
        }
    }
}

/// An optional bulk operation in mathematical form.
pub open spec fn bulk_view(b: Option<BulkOpData>) -> Option<BulkView> {
    match b {
        Some(d) => Some(d@),
        None => None,
    }
}

/// Why the Discord plugin refused a request.
#[derive(Debug)]
pub enum DiscordActionError {
    /// The template may not perform the action.
    NotAllowed(String),
    /// A bulk operation bound to one action was asked for another.
    ActionMismatch { expected: String, got: String },
    /// A bulk operation went too long without a wait.
    BulkExpired,
    /// A bulk operation performed all the actions it allows before a wait.
    LimitReached(String),
    /// A bulk operation cannot start another.
    NestedBulkOp,
    /// A wait was asked of an executor that runs no bulk operation.
    NotBulk,
    /// A wait came after the operation expired.
    WaitExpired,
    /// Two waits overlapped.
    ConcurrentWait,
    /// An audit log reason longer than 512 bytes.
    ReasonTooLong,
    /// An empty audit log reason.
    ReasonEmpty,
}

/// A refusal in mathematical form.
pub enum DiscordErrorView {
    NotAllowed(Seq<char>),
    ActionMismatch(Seq<char>, Seq<char>),
    BulkExpired,
    LimitReached(Seq<char>),
    NestedBulkOp,
    NotBulk,
    WaitExpired,
    ConcurrentWait,
    ReasonTooLong,
    ReasonEmpty,
}

impl View for DiscordActionError {
    type V = DiscordErrorView;

    open spec fn view(&self) -> DiscordErrorView {
        match self {
            DiscordActionError::NotAllowed(a) => DiscordErrorView::NotAllowed(a@),
            DiscordActionError::ActionMismatch { expected, got } => DiscordErrorView::ActionMismatch(expected@, got@),
            DiscordActionError::BulkExpired => DiscordErrorView::BulkExpired,
            DiscordActionError::LimitReached(a) => DiscordErrorView::LimitReached(a@),
            DiscordActionError::NestedBulkOp => DiscordErrorView::NestedBulkOp,
            DiscordActionError::NotBulk => DiscordErrorView::NotBulk,
            DiscordActionError::WaitExpired => DiscordErrorView::WaitExpired,
            DiscordActionError::ConcurrentWait => DiscordErrorView::ConcurrentWait,
            DiscordActionError::ReasonTooLong => DiscordErrorView::ReasonTooLong,
            DiscordActionError::ReasonEmpty => DiscordErrorView::ReasonEmpty,
        }
    }
}

/// The message of a refusal.
pub open spec fn discord_error_text(e: DiscordErrorView) -> Seq<char> {
    match e {
        DiscordErrorView::NotAllowed(a) => "Discord action `"@ + a + "` not allowed in this template context"@,
        DiscordErrorView::ActionMismatch(x, g) => "Bulk operation action mismatch: expected `"@ + x + "`, got `"@ + g + "`"@,
        DiscordErrorView::BulkExpired => "Bulk operation maximum wait period has passed"@,
        DiscordErrorView::LimitReached(a) => "Bulk operation limit reached: "@ + a
            + ". A call to `antiraid_bulk_op_wait` is required before performing more operations"@,
        DiscordErrorView::NestedBulkOp => "Cannot start a bulk operation if the DiscordActionExecutor itself is setup for bulk operations"@,
        DiscordErrorView::NotBulk => "This DiscordActionExecutor is not set up for bulk operations"@,
        DiscordErrorView::WaitExpired => "antiraid_bulk_op_wait called after the maximum wait period"@,
        DiscordErrorView::ConcurrentWait => "antiraid_bulk_op_wait cannot be called concurrently during/across a wait period"@,
        DiscordErrorView::ReasonTooLong => "Reason is too long"@,
        DiscordErrorView::ReasonEmpty => "Reason is empty"@,
    }
}

impl DiscordActionError {
    /// The refusal's message.
    pub fn message(&self) -> (r: String)
        ensures
            r@ == discord_error_text(self@),
    {
        match self {
            DiscordActionError::NotAllowed(a) => {
                let mut s = "Discord action `".to_string();
                append_str(&mut s, a.as_str());
                append_str(&mut s, "` not allowed in this template context");
                s
            },
            DiscordActionError::ActionMismatch { expected, got } => {
                let mut s = "Bulk operation action mismatch: expected `".to_string();
                append_str(&mut s, expected.as_str());
                append_str(&mut s, "`, got `");
                append_str(&mut s, got.as_str());
                append_str(&mut s, "`");
                s
            },
            DiscordActionError::BulkExpired => "Bulk operation maximum wait period has passed".to_string(),
            DiscordActionError::LimitReached(a) => {
                let mut s = "Bulk operation limit reached: ".to_string();
                append_str(&mut s, a.as_str());
                append_str(&mut s, ". A call to `antiraid_bulk_op_wait` is required before performing more operations");
                s
            },
            DiscordActionError::NestedBulkOp => "Cannot start a bulk operation if the DiscordActionExecutor itself is setup for bulk operations".to_string(),
            DiscordActionError::NotBulk => "This DiscordActionExecutor is not set up for bulk operations".to_string(),
            DiscordActionError::WaitExpired => "antiraid_bulk_op_wait called after the maximum wait period".to_string(),
            DiscordActionError::ConcurrentWait => "antiraid_bulk_op_wait cannot be called concurrently during/across a wait period".to_string(),
            DiscordActionError::ReasonTooLong => "Reason is too long".to_string(),
            DiscordActionError::ReasonEmpty => "Reason is empty".to_string(),
        }
    }
}

/// What an allowed action needs next.
#[derive(Debug, Clone, Copy, PartialEq, Eq, Structural)]
pub enum ActionCheck {
    /// It was counted against its bulk operation, and needs nothing more.
    Counted,
    /// It must pass the provider's rate limit.
    RateLimit,
}

/// The capability that allows `action`.
pub open spec fn cap_name(action: Seq<char>) -> Seq<char> {
    "discord:"@ + action
}

/// The name of the bulk wait action, which a bulk operation never counts.
pub open spec fn wait_action() -> Seq<char> {
    "antiraid_bulk_op_wait"@
}

/// Whether a bulk operation last waited at `last` has expired at `now`.
pub open spec fn expired(last: u64, now: u64) -> bool {
    last + BULK_OP_MAX_WAIT_MS < now
}

/// What checking `action` at `now` gives, where `allowed` is whether the template holds its
/// capability: the check and the bulk operation after it, or the refusal (which changes
/// nothing).
pub open spec fn check_action_spec(allowed: bool, bulk: Option<BulkView>, action: Seq<char>, now: u64) -> Result<(ActionCheck, Option<BulkView>), DiscordErrorView> {
    if !allowed {
        Err(DiscordErrorView::NotAllowed(action))
    } else {
        match bulk {
            Some(b) => if action == wait_action() {
                Ok((ActionCheck::RateLimit, bulk))
            } else if b.action matches Some(x) && x != action {
                Err(DiscordErrorView::ActionMismatch(b.action->0, action))
            } else if expired(b.last_waited, now) {
                Err(DiscordErrorView::BulkExpired)
            } else if b.op_performed >= b.max_ops {
                Err(DiscordErrorView::LimitReached(action))
            } else {
                Ok((ActionCheck::Counted, Some(BulkView { op_performed: (b.op_performed + 1) as usize, ..b })))
            },
            None => Ok((ActionCheck::RateLimit, bulk)),
        }
    }
}

fn capability_for(action: &str) -> (r: String)
    ensures
        r@ == cap_name(action@),
{
    let mut s = "discord:".to_string();
    append_str(&mut s, action);
    s
}

/// Whether a call of `f` on text `text` may answer `answer`.
pub open spec fn answered<F: Fn(&str) -> bool>(f: F, text: Seq<char>, answer: bool) -> bool {
    exists|s: &str| s@ == text && #[trigger] call_ensures(f, (s,), answer)
}

/// Whether a check's result and the bulk operation after it are what `expected` says, a refusal
/// leaving the bulk operation as it was `before`.
pub open spec fn check_outcome(
    r: Result<ActionCheck, DiscordActionError>,
    before: Option<BulkView>,
    after: Option<BulkView>,
    expected: Result<(ActionCheck, Option<BulkView>), DiscordErrorView>,
) -> bool {
    match expected {
        Ok((c, b)) => r == Ok::<ActionCheck, DiscordActionError>(c) && after == b,
        Err(e) => r matches Err(x) && x@ == e && after == before,
    }
}

/// The check of `action` at `now` once the capability test has answered `allowed`.
fn check_answered(allowed: bool, bulk: &mut Option<BulkOpData>, action: &str, now: u64) -> (r: Result<ActionCheck, DiscordActionError>)
    ensures
        check_outcome(r, bulk_view(*old(bulk)), bulk_view(*final(bulk)), check_action_spec(allowed, bulk_view(*old(bulk)), action@, now)),
{
    if !allowed {
        return Err(DiscordActionError::NotAllowed(action.to_string()));
    }
    let is_wait = str_eq(action, "antiraid_bulk_op_wait");
    match bulk {
        Some(b) => {
            if is_wait {
                return Ok(ActionCheck::RateLimit);
            }
            if let Some(x) = &b.action {
                if !str_eq(x.as_str(), action) {
                    return Err(DiscordActionError::ActionMismatch { expected: x.clone(), got: action.to_string() });
                }
            }
            if now > b.last_waited && now - b.last_waited > BULK_OP_MAX_WAIT_MS {
                return Err(DiscordActionError::BulkExpired);
            }
            if b.op_performed >= b.max_ops {
                return Err(DiscordActionError::LimitReached(action.to_string()));
            }
            b.op_performed = b.op_performed + 1;
            Ok(ActionCheck::Counted)
        },
        None => Ok(ActionCheck::RateLimit),
    }
}

/// Checks that the template may perform `action` at `now`, and counts it against the bulk
/// operation the executor runs, if any. Whatever the capability test answers, the result and
/// the bulk operation are the check for that answer; for a test that decides a property of
/// the capability's name, they are the check for that property.
pub fn check_action<F: Fn(&str) -> bool>(has_cap: &F, bulk: &mut Option<BulkOpData>, action: &str, now: u64) -> (r: Result<ActionCheck, DiscordActionError>)
    requires
        callable(*has_cap),
    ensures
        exists|allowed: bool| #[trigger] answered(*has_cap, cap_name(action@), allowed)
            && check_outcome(r, bulk_view(*old(bulk)), bulk_view(*final(bulk)), check_action_spec(allowed, bulk_view(*old(bulk)), action@, now)),
        forall|p: spec_fn(Seq<char>) -> bool| decides(*has_cap, p) ==> match check_action_spec(p(cap_name(action@)), bulk_view(*old(bulk)), action@, now) {
            Ok((c, b)) => r == Ok::<ActionCheck, DiscordActionError>(c) && bulk_view(*final(bulk)) == b,
            Err(e) => r matches Err(x) && x@ == e && bulk_view(*final(bulk)) == bulk_view(*old(bulk)),
        },
        match bulk_view(*old(bulk)) {
            Some(b) => b.op_performed <= b.max_ops ==> (bulk_view(*final(bulk)) matches Some(a)
                && a.op_performed <= a.max_ops && a.max_ops == b.max_ops),
            None => true,
        },
{
    let cap = capability_for(action);
    let cap_text: &str = cap.as_str();
    let allowed = has_cap(cap_text);
    proof {
        assert(answered(*has_cap, cap_name(action@), allowed)) by {
            assert(cap_text@ == cap_name(action@) && call_ensures(*has_cap, (cap_text,), allowed));
        }
        if let Some(b) = bulk_view(*bulk) {
            if b.op_performed <= b.max_ops {
                lemma_bulk_count_bounded(allowed, b, action@, now);
            }
        }
    }
    check_answered(allowed, bulk, action, now)
}

/// Starts a bulk operation at `now`, on `action` or on any action; refused on an executor
/// that already runs one. (The caller has checked the `antiraid_bulk_op` action first.)
pub fn start_bulk_op(current: &Option<BulkOpData>, action: Option<String>, now: u64) -> (r: Result<BulkOpData, DiscordActionError>)
    ensures
        current is Some ==> (r matches Err(e) && e@ == DiscordErrorView::NestedBulkOp),
        current is None ==> (r matches Ok(b) && b@ == (BulkView {
            op_performed: 0,
            max_ops: bulk_op_limit_spec(match action { Some(a) => Some(a@), None => None::<Seq<char>> }).max_ops,
            last_waited: now,
            min_wait: bulk_op_limit_spec(match action { Some(a) => Some(a@), None => None::<Seq<char>> }).min_wait_ms,
            action: match action { Some(a) => Some(a@), None => None::<Seq<char>> },
        })),
{
    if current.is_some() {
        return Err(DiscordActionError::NestedBulkOp);
    }
    let limit = match &action {
        Some(a) => bulk_op_limit(Some(a.as_str())),
        None => bulk_op_limit(None),
    };
    Ok(BulkOpData { op_performed: 0, max_ops: limit.max_ops, last_waited: now, min_wait: limit.min_wait_ms, action })
}

/// What a bulk wait does first.
#[derive(Debug, Clone, Copy, PartialEq, Eq, Structural)]
pub enum WaitStep {
    /// Nothing was performed since the last wait: there is nothing to wait for.
    Done,
    /// Sleep this many milliseconds, then finish the wait.
    Sleep(u64),
}

/// A random number of at least `low` and under `high` (`rand::random_range` on `low..high`);
/// which one is left open.
#[verifier::external_body]
fn random_below(low: u64, high: u64) -> (r: u64)
    requires
        low < high,
    ensures
        low <= r < high,
{
    rand::random_range(low..high)
}

/// The start of a bulk wait at `now`: refused when the executor runs no bulk operation or the
/// operation expired; with nothing performed since the last wait there is nothing to wait for;
/// otherwise a sleep of the operation's wait plus a jitter of 10 to 499 milliseconds.
pub fn bulk_wait_begin(bulk: &Option<BulkOpData>, now: u64) -> (r: Result<WaitStep, DiscordActionError>)
    requires
        bulk matches Some(b) ==> b.min_wait + 500 <= u64::MAX,
    ensures
        bulk is None ==> (r matches Err(e) && e@ == DiscordErrorView::NotBulk),
        bulk matches Some(b) ==> {
            if expired(b.last_waited, now) {
                r matches Err(e) && e@ == DiscordErrorView::WaitExpired
            } else if b.op_performed == 0 {
                r == Ok::<WaitStep, DiscordActionError>(WaitStep::Done)
            } else {
                r matches Ok(WaitStep::Sleep(ms)) && b.min_wait + 10 <= ms < b.min_wait + 500
            }
        },
{
    match bulk {
        None => Err(DiscordActionError::NotBulk),
        Some(b) => {
            if now > b.last_waited && now - b.last_waited > BULK_OP_MAX_WAIT_MS {
                return Err(DiscordActionError::WaitExpired);
            }
            if b.op_performed == 0 {
                return Ok(WaitStep::Done);
            }
            let jitter = random_below(10, 500);
            Ok(WaitStep::Sleep(b.min_wait + jitter))
        },
    }
}

/// The end of a bulk wait at `now`, after the sleep: the counter starts over and the wait is
/// recorded; refused when another wait already ended meanwhile.
pub fn bulk_wait_end(bulk: &mut Option<BulkOpData>, now: u64) -> (r: Result<(), DiscordActionError>)
    ensures
        *old(bulk) is None ==> (r matches Err(e) && e@ == DiscordErrorView::NotBulk && bulk_view(*final(bulk)) == bulk_view(*old(bulk))),
        *old(bulk) matches Some(b) ==> {
            if b.op_performed == 0 {
                r matches Err(e) && e@ == DiscordErrorView::ConcurrentWait && bulk_view(*final(bulk)) == bulk_view(*old(bulk))
            } else {
                r is Ok && bulk_view(*final(bulk)) == Some(BulkView { op_performed: 0, last_waited: now, ..b@ })
            }
        },
{
    match bulk {
        None => Err(DiscordActionError::NotBulk),
        Some(b) => {
            if b.op_performed == 0 {
                return Err(DiscordActionError::ConcurrentWait);
            }
            b.op_performed = 0;
            b.last_waited = now;
            Ok(())
        },
    }
}

/// Checks an audit log reason: at most 512 bytes, and not empty.
pub fn check_reason(reason: &str) -> (r: Result<(), DiscordActionError>)
    requires
        byte_len(reason@) <= usize::MAX,
    ensures
        byte_len(reason@) > 512 ==> (r matches Err(e) && e@ == DiscordErrorView::ReasonTooLong),
        byte_len(reason@) <= 512 && reason@.len() == 0 ==> (r matches Err(e) && e@ == DiscordErrorView::ReasonEmpty),
        byte_len(reason@) <= 512 && reason@.len() > 0 ==> r is Ok,
{
    if reason.len() > 512 {
        Err(DiscordActionError::ReasonTooLong)
    } else if reason.is_empty() {
        Err(DiscordActionError::ReasonEmpty)
    } else {
        Ok(())
    }
}

/// A bulk operation never performs more actions between two waits than it allows: a counted
/// action leaves the counter within the limit, and a refused one leaves it as it was.
pub proof fn lemma_bulk_count_bounded(allowed: bool, b: BulkView, action: Seq<char>, now: u64)
    requires
        b.op_performed <= b.max_ops,
    ensures
        match check_action_spec(allowed, Some(b), action, now) {
            Ok((_, Some(after))) => after.op_performed <= after.max_ops && after.max_ops == b.max_ops,
            Ok((_, None)) => false,
            Err(_) => true,
        },
{
}

/// An action the template holds no capability for is refused, bulk operation or not.
pub proof fn lemma_no_cap_no_action(bulk: Option<BulkView>, action: Seq<char>, now: u64)
    ensures
        check_action_spec(false, bulk, action, now) == Err::<(ActionCheck, Option<BulkView>), DiscordErrorView>(DiscordErrorView::NotAllowed(action)),
{
}

/// The options of creating a channel: the audit log reason and the channel's data.
#[derive(Debug, Default)]
pub struct CreateChannelOptions<D> {
    pub reason: String,
    pub data: D,
}

/// The options of creating an application command.
#[derive(Debug)]
pub struct CreateCommandOptions {
    pub data: CreateCommand,
}

/// The options of creating (overwriting) several application commands.
#[derive(Debug)]
pub struct CreateCommandsOptions {
    pub data: Vec<CreateCommand>,
}

/// The options of sending a follow-up message to an interaction.
#[derive(Debug, Default)]
pub struct CreateFollowupMessageOptions<D> {
    pub interaction_token: String,
    pub data: D,
}

/// The options of creating an auto moderation rule: the audit log reason and the rule.
#[derive(Debug, Default)]
pub struct CreateAutoModerationRuleOptions<D> {
    pub reason: String,
    pub data: D,
}

/// The options of creating a guild role: the audit log reason and the role's data.
#[derive(Debug)]
pub struct CreateGuildRoleOptions<D> {
    pub reason: String,
    pub data: D,
}

/// The options of deleting an invite: its code and the audit log reason.
#[derive(Debug)]
pub struct DeleteInviteOptions {
    pub code: String,
    pub reason: String,
}

/// Where a page of messages starts: after, around or before a message (by ID).
#[derive(Debug, Clone, Copy, PartialEq, Eq, Structural)]
pub enum MessagePagination {
    After { id: u64 },
    Around { id: u64 },
    Before { id: u64 },
}

/// A role's wanted position.
#[derive(Debug, Clone, Copy, PartialEq, Eq, Structural)]
pub struct ModifyRolePosition {
    pub id: u64,
    pub position: i16,
}

/// How a wanted position compares with a role.
#[derive(Debug, Clone, Copy, PartialEq, Eq, Structural)]
pub enum RolePositionOrder {
    Less,
    Equal,
    Greater,
}

/// How a wanted position compares with a role at `position` with ID `id`: by position, and by
/// ID between equal positions.
pub open spec fn role_order_spec(m: ModifyRolePosition, id: u64, position: i16) -> RolePositionOrder {
    if m.position == position {
        if m.id < id {
            RolePositionOrder::Less
        } else if m.id == id {
            RolePositionOrder::Equal
        } else {
            RolePositionOrder::Greater
        }
    } else if m.position < position {
        RolePositionOrder::Less
    } else {
        RolePositionOrder::Greater
    }
}

impl ModifyRolePosition {
    /// Whether this is about the role with ID `id` (whatever the positions).
    pub fn same_role(&self, id: u64) -> (r: bool)
        ensures
            r == (self.id == id),
    {
        self.id == id
    }

    /// How this wanted position compares with a role at `position` with ID `id`.
    pub fn compare_role(&self, id: u64, position: i16) -> (r: RolePositionOrder)
        ensures
            r == role_order_spec(*self, id, position),
    {
        if self.position == position {
            if self.id < id {
                RolePositionOrder::Less
            } else if self.id == id {
                RolePositionOrder::Equal
            } else {
                RolePositionOrder::Greater
            }
        } else if self.position < position {
            RolePositionOrder::Less
        } else {
            RolePositionOrder::Greater
        }
    }
}

/// The comparison is a total order on (position, ID): it is antisymmetric, and only the very
/// same position and ID compare equal.
pub proof fn lemma_role_order_antisymmetric(a: ModifyRolePosition, b: ModifyRolePosition)
    ensures
        role_order_spec(a, b.id, b.position) == RolePositionOrder::Equal <==> (a.id == b.id && a.position == b.position),
        role_order_spec(a, b.id, b.position) == RolePositionOrder::Less <==> role_order_spec(b, a.id, a.position) == RolePositionOrder::Greater,
{
}

} // verus!
