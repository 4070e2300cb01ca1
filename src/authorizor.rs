use crate::meta::MetadataAuthorizor;
use crate::policy::{evaluate, net_effect, Effect, Group, PolicyStatement, User};
use vstd::prelude::*;

verus! {

/// Why a required permission was not granted.
#[derive(PartialEq, Eq, Structural, Clone, Copy, Debug)]
pub enum DeniedError {
    /// The statements did not yield Allow for the pair.
    NotAllowed,
    /// The resource has no stable identifier to match patterns against.
    NoResourceId,
}

/// A value that names a resource for policy matching.
pub trait ToResourceId {
    /// The identifier of the resource, if it has one.
    spec fn resource_id(&self) -> Option<Seq<char>>;

    fn to_resource_id(&self) -> (r: Option<&str>)
        ensures
            match r {
                Some(id) => self.resource_id() == Some(id@),
                None => self.resource_id() is None,
            },
    ;
}

impl ToResourceId for str {
    open spec fn resource_id(&self) -> Option<Seq<char>> {
        Some(self@)
    }

    fn to_resource_id(&self) -> (r: Option<&str>) {
        Some(self)
    }
}

impl ToResourceId for String {
    open spec fn resource_id(&self) -> Option<Seq<char>> {
        Some(self@)
    }

    fn to_resource_id(&self) -> (r: Option<&str>) {
        Some(self.as_str())
    }
}

/// The statements of the groups that were found, in order.
pub open spec fn group_statements(groups: Seq<Option<Group>>) -> Seq<PolicyStatement>
    decreases groups.len(),
{
    if groups.len() == 0 {
        Seq::empty()
    } else {
        let head = match groups[0] {
            Some(g) => g.policy_statements@,
            None => Seq::empty(),
        };
        head + group_statements(groups.drop_first())
    }
}

/// True iff the statements allow the action on the resource.
pub open spec fn allows(stmts: Seq<PolicyStatement>, action: Seq<char>, resource: Seq<char>) -> bool {
    net_effect(stmts, action, resource) == Some(Effect::Allow)
}

/// The permissions of one principal for the length of one request: the
/// statements of its groups followed by its own.
pub struct RequestAuthorizor {
    username: String,
    policy_statements: Vec<PolicyStatement>,
}

impl RequestAuthorizor {
    pub closed spec fn statements(&self) -> Seq<PolicyStatement> {
        self.policy_statements@
    }

    pub closed spec fn principal(&self) -> Seq<char> {
        self.username@
    }

    /// The spec of `is_allowed`.
    pub open spec fn grants<R: ToResourceId + ?Sized>(&self, action: Seq<char>, resource: &R) -> bool {
        match resource.resource_id() {
            Some(id) => allows(self.statements(), action, id),
            None => false,
        }
    }

    /// Binds `user` to the groups that its group names resolved to; a name
    /// that resolved to nothing (`None`) adds no statement.
    pub fn new(user: User, groups: Vec<Option<Group>>) -> (r: RequestAuthorizor)
        ensures
            r.statements() == group_statements(groups@) + user.policy_statements@,
            r.principal() == user.login_name@,
    {
        let mut user = user;
        let mut groups = groups;
        let ghost all = groups@;
        let mut stmts: Vec<PolicyStatement> = Vec::new();
        assert(stmts@ + group_statements(groups@) =~= group_statements(all));
        while groups.len() > 0
            invariant
                stmts@ + group_statements(groups@) == group_statements(all),
            decreases groups@.len(),
        {
            let ghost before = groups@;
            let g = groups.remove(0);
            assert(groups@ =~= before.drop_first());
            assert(stmts@ + group_statements(before) =~= match g {
                Some(g) => stmts@ + g.policy_statements@,
                None => stmts@,
            } + group_statements(groups@));
            if let Some(mut g) = g {
                stmts.append(&mut g.policy_statements);
            }
        }
        stmts.append(&mut user.policy_statements);
        RequestAuthorizor { username: user.login_name, policy_statements: stmts }
    }

    fn result(self, r: Result<(), DeniedError>) -> (out: RequestAuthorizorResult)
        ensures
            out.authorizor() == self,
            out.outcome() == r,
    {
        RequestAuthorizorResult { authorizor: self, result: r }
    }

    /// True iff the resource has an identifier and the statements allow the
    /// action on it; no opinion counts as a denial.
    pub fn is_allowed<R: ToResourceId + ?Sized>(&self, action: &str, resource: &R) -> (r: bool)
        ensures
            r == self.grants(action@, resource),
    {
        let resource_id = resource.to_resource_id();
        match resource_id {
            None => false,
            Some(id) => {
                let e = evaluate(&self.policy_statements, action, id);
                match e {
                    Some(Effect::Allow) => true,
                    _ => false,
                }
            },
        }
    }

    /// Checks one permission and carries the authorizor on, so that further
    /// checks can be chained.
    pub fn require<R: ToResourceId + ?Sized>(self, action: &str, resource: &R) -> (out: RequestAuthorizorResult)
        ensures
            out.authorizor() == self,
            out.outcome() == required(self, action@, resource),
    {
        let res = match resource.to_resource_id() {
            None => Err(DeniedError::NoResourceId),
            Some(id) => {
                if self.is_allowed(action, id) {
                    Ok(())
                } else {
                    Err(DeniedError::NotAllowed)
                }
            },
        };
        self.result(res)
    }
}

/// The outcome of requiring `action` on `resource` of `a`.
pub open spec fn required<R: ToResourceId + ?Sized>(a: RequestAuthorizor, action: Seq<char>, resource: &R) -> Result<(), DeniedError> {
    match resource.resource_id() {
        None => Err(DeniedError::NoResourceId),
        Some(id) => if allows(a.statements(), action, id) {
            Ok(())
        } else {
            Err(DeniedError::NotAllowed)
        },
    }
}

/// The outcome of a chain of permission checks on one authorizor.
pub struct RequestAuthorizorResult {
    authorizor: RequestAuthorizor,
    result: Result<(), DeniedError>,
}

impl RequestAuthorizorResult {
    pub closed spec fn authorizor(&self) -> RequestAuthorizor {
        self.authorizor
    }

    pub closed spec fn outcome(&self) -> Result<(), DeniedError> {
        self.result
    }

    /// Checks one more permission, unless an earlier check of the chain was
    /// denied: then that denial is kept and nothing more is checked.
    pub fn require<R: ToResourceId + ?Sized>(self, action: &str, resource: &R) -> (out: RequestAuthorizorResult)
        ensures
            out.authorizor() == self.authorizor(),
            out.outcome() == match self.outcome() {
                Err(e) => Err(e),
                Ok(()) => required(self.authorizor(), action@, resource),
            },
    {
        if self.result.is_err() {
            return self;
        }
        self.authorizor.require(action, resource)
    }

    /// The outcome of the chain.
    pub fn ok(self) -> (r: Result<(), DeniedError>)
        ensures
            r == self.outcome(),
    {
        self.result
    }
}

impl MetadataAuthorizor for RequestAuthorizor {
    open spec fn read_allowed(&self, logical_path: Seq<char>) -> bool {
        allows(self.statements(), "file:Read"@, logical_path)
    }

    open spec fn write_allowed(&self, logical_path: Seq<char>) -> bool {
        allows(self.statements(), "file:Write"@, logical_path)
    }

    fn may_read_file(&self, logical_path: &str) -> (r: bool) {
        self.is_allowed("file:Read", logical_path)
    }

    fn may_write_file(&self, logical_path: &str) -> (r: bool) {
        self.is_allowed("file:Write", logical_path)
    }
}

/// No opinion is a denial: where no statement of the principal applies to
/// the pair, the action is not allowed and requiring it fails.
pub proof fn lemma_no_opinion_denied<R: ToResourceId + ?Sized>(a: RequestAuthorizor, action: Seq<char>, resource: &R)
    requires
        resource.resource_id() is Some,
        forall|i: int|
            0 <= i < a.statements().len() ==> !(#[trigger] a.statements()[i].applies_to(
                action,
                resource.resource_id()->Some_0,
            )),
    ensures
        net_effect(a.statements(), action, resource.resource_id()->Some_0) is None,
        !a.grants(action, resource),
        required(a, action, resource) == Err::<(), DeniedError>(DeniedError::NotAllowed),
{
}

} // verus!
