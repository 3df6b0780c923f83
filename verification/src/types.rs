//! The core data model: resource kinds, view modes, focus cycling, and the
//! items displayed in the resource table.

use vstd::prelude::*;

verus! {

/// The three kinds of cluster object the dashboard models, cycled through in
/// a fixed order by `next` / `prev`.
#[derive(Clone, Copy, Debug, PartialEq, Eq, Structural)]
pub enum ResourceType {
    Pods,
    PersistentVolumeClaims,
    StatefulSets,
}

/// The successor of a resource type in the fixed 3-cycle.
pub open spec fn next_resource_type(t: ResourceType) -> ResourceType {
    match t {
        ResourceType::Pods => ResourceType::PersistentVolumeClaims,
        ResourceType::PersistentVolumeClaims => ResourceType::StatefulSets,
        ResourceType::StatefulSets => ResourceType::Pods,
    }
}

/// The predecessor of a resource type in the fixed 3-cycle.
pub open spec fn prev_resource_type(t: ResourceType) -> ResourceType {
    match t {
        ResourceType::Pods => ResourceType::StatefulSets,
        ResourceType::PersistentVolumeClaims => ResourceType::Pods,
        ResourceType::StatefulSets => ResourceType::PersistentVolumeClaims,
    }
}

impl ResourceType {
    pub fn next(self) -> (r: Self)
        ensures
            r == next_resource_type(self),
    {
        match self {
            ResourceType::Pods => ResourceType::PersistentVolumeClaims,
            ResourceType::PersistentVolumeClaims => ResourceType::StatefulSets,
            ResourceType::StatefulSets => ResourceType::Pods,
        }
    }

    pub fn prev(self) -> (r: Self)
        ensures
            r == prev_resource_type(self),
    {
        match self {
            ResourceType::Pods => ResourceType::StatefulSets,
            ResourceType::PersistentVolumeClaims => ResourceType::Pods,
            ResourceType::StatefulSets => ResourceType::PersistentVolumeClaims,
        }
    }

    /// The table headers for this resource type, matching
    /// `ResourceItem::columns` position for position.
    pub fn column_headers(&self) -> (r: Vec<&'static str>)
        ensures
            *self is Pods ==> r@.len() == 5 && r@[0]@ == "NAME"@ && r@[1]@ == "STATUS"@ && r@[2]@
                == "AGE"@ && r@[3]@ == "RESTARTS"@ && r@[4]@ == "NODE"@,
            *self is PersistentVolumeClaims ==> r@.len() == 5 && r@[0]@ == "NAME"@ && r@[1]@
                == "STATUS"@ && r@[2]@ == "VOLUME"@ && r@[3]@ == "CAPACITY"@ && r@[4]@ == "AGE"@,
            *self is StatefulSets ==> r@.len() == 3 && r@[0]@ == "NAME"@ && r@[1]@ == "READY"@
                && r@[2]@ == "AGE"@,
    {
        let mut r: Vec<&'static str> = Vec::new();
        match self {
            ResourceType::Pods => {
                r.push("NAME");
                r.push("STATUS");
                r.push("AGE");
                r.push("RESTARTS");
                r.push("NODE");
            },
            ResourceType::PersistentVolumeClaims => {
                r.push("NAME");
                r.push("STATUS");
                r.push("VOLUME");
                r.push("CAPACITY");
                r.push("AGE");
            },
            ResourceType::StatefulSets => {
                r.push("NAME");
                r.push("READY");
                r.push("AGE");
            },
        }
        r
    }

    /// The short display name of this resource type, as shown in the type
    /// selector.
    pub fn display_name(&self) -> (r: &'static str)
        ensures
            *self is Pods ==> r@ == "Pods"@,
            *self is PersistentVolumeClaims ==> r@ == "PVCs"@,
            *self is StatefulSets ==> r@ == "StatefulSets"@,
    {
        match self {
            ResourceType::Pods => "Pods",
            ResourceType::PersistentVolumeClaims => "PVCs",
            ResourceType::StatefulSets => "StatefulSets",
        }
    }
}

/// `next` and `prev` are mutual inverses on resource types.
pub proof fn lemma_resource_type_next_prev(t: ResourceType)
    ensures
        prev_resource_type(next_resource_type(t)) == t,
        next_resource_type(prev_resource_type(t)) == t,
{
}

/// `next` traverses all three resource types before returning to its start:
/// a 3-cycle.
pub proof fn lemma_resource_type_three_cycle(t: ResourceType)
    ensures
        next_resource_type(next_resource_type(next_resource_type(t))) == t,
        next_resource_type(t) != t,
        next_resource_type(next_resource_type(t)) != t,
{
}

/// Which widget receives non-global key input in the list view, cycled
/// through in a fixed order by `next` / `prev`.
#[derive(Clone, Copy, Debug, PartialEq, Eq, Structural)]
pub enum Focus {
    ContextSelector,
    NamespaceSelector,
    ResourceTypeSelector,
    ResourceList,
}

/// The successor of a focus position in the fixed 4-cycle.
pub open spec fn next_focus(f: Focus) -> Focus {
    match f {
        Focus::ContextSelector => Focus::NamespaceSelector,
        Focus::NamespaceSelector => Focus::ResourceTypeSelector,
        Focus::ResourceTypeSelector => Focus::ResourceList,
        Focus::ResourceList => Focus::ContextSelector,
    }
}

/// The predecessor of a focus position in the fixed 4-cycle.
pub open spec fn prev_focus(f: Focus) -> Focus {
    match f {
        Focus::ContextSelector => Focus::ResourceList,
        Focus::NamespaceSelector => Focus::ContextSelector,
        Focus::ResourceTypeSelector => Focus::NamespaceSelector,
        Focus::ResourceList => Focus::ResourceTypeSelector,
    }
}

impl Focus {
    pub fn next(self) -> (r: Self)
        ensures
            r == next_focus(self),
    {
        match self {
            Focus::ContextSelector => Focus::NamespaceSelector,
            Focus::NamespaceSelector => Focus::ResourceTypeSelector,
            Focus::ResourceTypeSelector => Focus::ResourceList,
            Focus::ResourceList => Focus::ContextSelector,
        }
    }

    pub fn prev(self) -> (r: Self)
        ensures
            r == prev_focus(self),
    {
        match self {
            Focus::ContextSelector => Focus::ResourceList,
            Focus::NamespaceSelector => Focus::ContextSelector,
            Focus::ResourceTypeSelector => Focus::NamespaceSelector,
            Focus::ResourceList => Focus::ResourceTypeSelector,
        }
    }
}

/// `next` and `prev` are mutual inverses on focus positions.
pub proof fn lemma_focus_next_prev(f: Focus)
    ensures
        prev_focus(next_focus(f)) == f,
        next_focus(prev_focus(f)) == f,
{
}

/// `next` traverses all four focus positions before returning to its start:
/// a 4-cycle.
pub proof fn lemma_focus_four_cycle(f: Focus)
    ensures
        next_focus(next_focus(next_focus(next_focus(f)))) == f,
        next_focus(f) != f,
        next_focus(next_focus(f)) != f,
        next_focus(next_focus(next_focus(f))) != f,
{
}

/// The action a confirmation dialog is asking about.
#[derive(Clone, Copy, Debug, PartialEq, Eq, Structural)]
pub enum ConfirmAction {
    Delete,
    Restart,
}

impl ConfirmAction {
    /// The label shown in the confirmation dialog for this action.
    pub fn label(self) -> (r: &'static str)
        ensures
            self is Delete ==> r@ == "Delete"@,
            self is Restart ==> r@ == "Restart"@,
    {
        match self {
            ConfirmAction::Delete => "Delete",
            ConfirmAction::Restart => "Restart",
        }
    }
}

/// The authoritative UI state: which view is shown. A confirmation dialog
/// always carries the action it is asking about.
#[derive(Clone, Copy, Debug, PartialEq, Eq, Structural)]
pub enum ViewMode {
    List,
    Detail,
    Logs,
    Confirm(ConfirmAction),
    Search,
}

/// One displayed cluster object, immutable once constructed; an updated
/// object replaces the whole item. `extra` holds the type-specific columns
/// as ordered key/value pairs.
#[derive(Debug)]
pub struct ResourceItem {
    pub name: String,
    pub namespace: String,
    pub status: String,
    pub age: String,
    pub extra: Vec<(String, String)>,
    pub raw_yaml: String,
}

/// The value paired with the first occurrence of `key` in `extra`, or
/// "<none>" when the key is absent.
pub open spec fn extra_val_spec(extra: Seq<(String, String)>, key: Seq<char>) -> Seq<char>
    decreases extra.len(),
{
    if extra.len() == 0 {
        "<none>"@
    } else if extra[0].0@ == key {
        extra[0].1@
    } else {
        extra_val_spec(extra.drop_first(), key)
    }
}

impl ResourceItem {
    /// Looks up `key` among the item's extra columns; absent keys read as
    /// "<none>".
    pub fn extra_val(&self, key: &str) -> (r: String)
        ensures
            r@ == extra_val_spec(self.extra@, key@),
    {
        let key_string: String = key.to_owned();
        let n: usize = self.extra.len();
        let mut i: usize = 0;
        proof {
            assert(self.extra@.skip(0) =~= self.extra@);
        }
        while i < n
            invariant
                n == self.extra@.len(),
                i <= n,
                key_string@ == key@,
                extra_val_spec(self.extra@.skip(i as int), key@) == extra_val_spec(
                    self.extra@,
                    key@,
                ),
            decreases n - i,
        {
            let ghost rest = self.extra@.skip(i as int);
            proof {
                assert(rest.len() > 0);
                assert(rest[0] == self.extra@[i as int]);
                assert(rest.drop_first() =~= self.extra@.skip(i as int + 1));
            }
            if self.extra[i].0 == key_string {
                return self.extra[i].1.clone();
            }
            i = i + 1;
        }
        proof {
            assert(self.extra@.skip(n as int) =~= Seq::<(String, String)>::empty());
        }
        "<none>".to_owned()
    }

    /// The column values matching `column_headers` for the given resource
    /// type.
    pub fn columns(&self, resource_type: ResourceType) -> (r: Vec<String>)
        ensures
            resource_type is Pods ==> r@.len() == 5 && r@[0]@ == self.name@ && r@[1]@
                == self.status@ && r@[2]@ == self.age@ && r@[3]@ == extra_val_spec(
                self.extra@,
                "restarts"@,
            ) && r@[4]@ == extra_val_spec(self.extra@, "node"@),
            resource_type is PersistentVolumeClaims ==> r@.len() == 5 && r@[0]@ == self.name@
                && r@[1]@ == self.status@ && r@[2]@ == extra_val_spec(self.extra@, "volume"@)
                && r@[3]@ == extra_val_spec(self.extra@, "capacity"@) && r@[4]@ == self.age@,
            resource_type is StatefulSets ==> r@.len() == 3 && r@[0]@ == self.name@ && r@[1]@
                == extra_val_spec(self.extra@, "ready"@) && r@[2]@ == self.age@,
    {
        match resource_type {
            ResourceType::Pods => {
                let restarts = self.extra_val("restarts");
                let node = self.extra_val("node");
                let mut r: Vec<String> = Vec::new();
                r.push(self.name.clone());
                r.push(self.status.clone());
                r.push(self.age.clone());
                r.push(restarts);
                r.push(node);
                r
            },
            ResourceType::PersistentVolumeClaims => {
                let volume = self.extra_val("volume");
                let capacity = self.extra_val("capacity");
                let mut r: Vec<String> = Vec::new();
                r.push(self.name.clone());
                r.push(self.status.clone());
                r.push(volume);
                r.push(capacity);
                r.push(self.age.clone());
                r
            },
            ResourceType::StatefulSets => {
                let ready = self.extra_val("ready");
                let mut r: Vec<String> = Vec::new();
                r.push(self.name.clone());
                r.push(ready);
                r.push(self.age.clone());
                r
            },
        }
    }
}

/// Two items that carry the same data, field for field. A fresh clone of an
/// item is the same item in this sense.
pub open spec fn same_item(a: ResourceItem, b: ResourceItem) -> bool {
    a.name == b.name && a.namespace == b.namespace && a.status == b.status && a.age == b.age
        && a.extra@ == b.extra@ && a.raw_yaml == b.raw_yaml
}

impl Clone for ResourceItem {
    /// A clone carries the same data as the original, field for field.
    fn clone(&self) -> (r: Self)
        ensures
            same_item(r, *self),
    {
        let mut extra: Vec<(String, String)> = Vec::new();
        let n: usize = self.extra.len();
        let mut i: usize = 0;
        while i < n
            invariant
                n == self.extra@.len(),
                i <= n,
                extra@.len() == i,
                forall|k: int| 0 <= k < i ==> extra@[k] == self.extra@[k],
            decreases n - i,
        {
            let pair_first: String = self.extra[i].0.clone();
            let pair_second: String = self.extra[i].1.clone();
            proof {
                assert((pair_first, pair_second) == self.extra@[i as int]);
            }
            extra.push((pair_first, pair_second));
            i = i + 1;
        }
        proof {
            assert(extra@ =~= self.extra@);
        }
        ResourceItem {
            name: self.name.clone(),
            namespace: self.namespace.clone(),
            status: self.status.clone(),
            age: self.age.clone(),
            extra,
            raw_yaml: self.raw_yaml.clone(),
        }
    }
}

/// A resource found by the cross-cluster search, annotated with the context
/// it came from; results from different contexts may share a name.
#[derive(Debug)]
pub struct SearchResult {
    pub resource: ResourceItem,
    pub context: String,
    pub resource_type: ResourceType,
}

/// Two search results that carry the same data, field for field.
pub open spec fn same_result(a: SearchResult, b: SearchResult) -> bool {
    same_item(a.resource, b.resource) && a.context == b.context && a.resource_type
        == b.resource_type
}

impl Clone for SearchResult {
    /// A clone carries the same data as the original, field for field.
    fn clone(&self) -> (r: Self)
        ensures
            same_result(r, *self),
    {
        SearchResult {
            resource: self.resource.clone(),
            context: self.context.clone(),
            resource_type: self.resource_type,
        }
    }
}

/// Which row of a table is highlighted, if any.
#[derive(Clone, Copy, Debug, PartialEq, Eq, Structural)]
pub struct TableState {
    pub selection: Option<usize>,
}

impl TableState {
    pub fn new() -> (r: Self)
        ensures
            r.selection is None,
    {
        TableState { selection: None }
    }

    pub fn selected(&self) -> (r: Option<usize>)
        ensures
            r == self.selection,
    {
        self.selection
    }

    pub fn select(&mut self, s: Option<usize>)
        ensures
            final(self).selection == s,
    {
        self.selection = s;
    }
}

} // verus!
