//! The YAML templates offered when creating a resource, and the state of
//! the window that edits and applies them.
use crate::text::{chars_of, string_of};
use vstd::prelude::*;

verus! {

/// Template of a new namespace.
pub const NAMESPACE_TEMPLATE: &'static str = r#"apiVersion: v1
kind: Namespace
metadata:
  name: namespace-name
"#;

/// Template of a new configmap.
pub const CONFIGMAP_TEMPLATE: &'static str = r#"apiVersion: v1
kind: ConfigMap
metadata:
  name: configmap-name
  namespace: namespace-name
data:
  key: "value"
"#;

/// Template of a new pvc.
pub const PVC_TEMPLATE: &'static str = r#"apiVersion: v1
kind: PersistentVolumeClaim
metadata:
  name: pvc-name
  namespace: namespace-name
spec:
  accessModes:
    - ReadWriteOnce
  resources:
    requests:
      storage: 1Gi
  storageClassName: storage-class-name
"#;

/// Template of a new pod.
pub const POD_TEMPLATE: &'static str = r#"apiVersion: v1
kind: Pod
metadata:
  name: pod-name
  namespace: namespace-name
spec:
  containers:
    - name: pod-container
      image: nginx
"#;

/// Template of a new pod with pvc.
pub const POD_WITH_PVC_TEMPLATE: &'static str = r#"apiVersion: v1
kind: Pod
metadata:
  name: pod-name
  namespace: namespace-name
spec:
  containers:
    - name: pod-container
      image: nginx
      volumeMounts:
        - name: volume-name
          mountPath: /testdata
  volumes:
    - name: volume-name
      persistentVolumeClaim:
        claimName: pvc-name
"#;

/// Template of a new secret.
pub const SECRET_TEMPLATE: &'static str = r#"apiVersion: v1
kind: Secret
metadata:
  name: secret-name
  namespace: namespace-name
data:
  key: cXFx
type: Opaque
"#;

/// Template of a new service account.
pub const SERVICE_ACCOUNT_TEMPLATE: &'static str = r#"apiVersion: v1
kind: ServiceAccount
metadata:
  name: service-account-name
  namespace: namespace-name
"#;

/// Template of a new role.
pub const ROLE_TEMPLATE: &'static str = r#"apiVersion: rbac.authorization.k8s.io/v1
kind: Role
metadata:
  name: role-name
  namespace: namespace-name
"#;

/// Template of a new role binding.
pub const ROLE_BINDING_TEMPLATE: &'static str = r#"apiVersion: rbac.authorization.k8s.io/v1
kind: RoleBinding
metadata:
  name: role-binding-name
  namespace: namespace-name
"#;

/// Template of a new cluster role.
pub const CLUSTER_ROLE_TEMPLATE: &'static str = r#"apiVersion: rbac.authorization.k8s.io/v1
kind: ClusterRole
metadata:
  name: cluster-role-name
"#;

/// Template of a new cluster role binding.
pub const CLUSTER_ROLE_BINDING_TEMPLATE: &'static str = r#"apiVersion: rbac.authorization.k8s.io/v1
kind: ClusterRoleBinding
metadata:
  name: cluster-role-binding-name
"#;

/// Template of a new ingress.
pub const INGRESS_TEMPLATE: &'static str = r#"apiVersion: networking.k8s.io/v1
kind: Ingress
metadata:
  name: ingress-name
  namespace: namespace-name
  annotations:
    nginx.ingress.kubernetes.io/rewrite-target: /
spec:
  ingressClassName: nginx
  rules:
  - http:
      paths:
      - path: /testpath
        pathType: Prefix
        backend:
          service:
            name: service-name
            port:
              number: 80
"#;

/// Template of a new service.
pub const SERVICE_TEMPLATE: &'static str = r#"apiVersion: v1
kind: Service
metadata:
  name: service-name
  namespace: namespace-name
  labels:
    app: app-name
spec:
  selector:
    app.kubernetes.io/name: app-name
  ports:
    - port: 80
"#;

/// Template of a new daemonset.
pub const DAEMONSET_TEMPLATE: &'static str = r#"apiVersion: apps/v1
kind: DaemonSet
metadata:
  name: daemonset-name
  namespace: namespace-name
"#;

/// Template of a new replicaset.
pub const REPLICASET_TEMPLATE: &'static str = r#"apiVersion: apps/v1
kind: ReplicaSet
metadata:
  name: replicaset-name
  namespace: namespace-name
  labels:
    app: app-name
spec:
  replicas: 3
  selector:
    matchLabels:
      app: app-name
  template:
    metadata:
      labels:
        app: app-name
    spec:
      containers:
      - name: nginx
        image: nginx
        ports:
        - containerPort: 80
"#;

/// Template of a new deployment.
pub const DEPLOYMENT_TEMPLATE: &'static str = r#"apiVersion: apps/v1
kind: Deployment
metadata:
  name: deployment-name
  namespace: namespace-name
  labels:
    app: app-name
spec:
  replicas: 3
  selector:
    matchLabels:
      app: app-name
  template:
    metadata:
      labels:
        app: app-name
    spec:
      containers:
      - name: nginx
        image: nginx
        ports:
        - containerPort: 80
"#;

/// Template of a new external secret.
pub const EXTERNAL_SECRET_TEMPLATE: &'static str = r#"apiVersion: external-secrets.io/v1beta1
kind: ExternalSecret
metadata:
  name: secret-name
  namespace: namespace-name
spec:
  dataFrom:
    - extract:
        conversionStrategy: Default
        decodingStrategy: None
        key: path/to/hashicorp/vault
  refreshInterval: 1h
  secretStoreRef:
    kind: ClusterSecretStore
    name: external-secrets-secret-store
  target:
    creationPolicy: Owner
    deletionPolicy: Retain
    name: secret-name
    template:
      engineVersion: v2
      mergePolicy: Replace
      type: Opaque
"#;

/// The kinds of resource the creation window offers a template for.
#[derive(PartialEq, Eq, Structural, Clone, Copy, Debug)]
pub enum ResourceType {
    Blank,
    NameSpace,
    PersistenceVolumeClaim,
    Pod,
    PodWithPvc,
    Secret,
    ExternalSecret,
    ServiceAccount,
    Role,
    RoleBinding,
    ClusterRole,
    ClusterRoleBinding,
    ConfigMap,
    DaemonSet,
    ReplicaSet,
    Ingress,
    Service,
    Deployment,
}

/// The template put in an empty editor for the current kind. (A role
/// binding gets the cluster role binding template here.)
pub open spec fn initial_template(t: ResourceType) -> Seq<char> {
    match t {
        ResourceType::NameSpace => NAMESPACE_TEMPLATE@,
        ResourceType::Pod => POD_TEMPLATE@,
        ResourceType::Deployment => DEPLOYMENT_TEMPLATE@,
        ResourceType::Service => SERVICE_TEMPLATE@,
        ResourceType::DaemonSet => DAEMONSET_TEMPLATE@,
        ResourceType::Ingress => INGRESS_TEMPLATE@,
        ResourceType::ReplicaSet => REPLICASET_TEMPLATE@,
        ResourceType::PodWithPvc => POD_WITH_PVC_TEMPLATE@,
        ResourceType::ConfigMap => CONFIGMAP_TEMPLATE@,
        ResourceType::Secret => SECRET_TEMPLATE@,
        ResourceType::ExternalSecret => EXTERNAL_SECRET_TEMPLATE@,
        ResourceType::Role => ROLE_TEMPLATE@,
        ResourceType::RoleBinding => CLUSTER_ROLE_BINDING_TEMPLATE@,
        ResourceType::ClusterRole => CLUSTER_ROLE_TEMPLATE@,
        ResourceType::ClusterRoleBinding => CLUSTER_ROLE_BINDING_TEMPLATE@,
        ResourceType::ServiceAccount => SERVICE_ACCOUNT_TEMPLATE@,
        ResourceType::PersistenceVolumeClaim => PVC_TEMPLATE@,
        ResourceType::Blank => ""@,
    }
}

/// The template loaded when a kind is picked from the list. (Picking a
/// cluster role binding loads the cluster role template.)
pub open spec fn picked_template(t: ResourceType) -> Seq<char> {
    match t {
        ResourceType::RoleBinding => ROLE_BINDING_TEMPLATE@,
        ResourceType::ClusterRoleBinding => CLUSTER_ROLE_TEMPLATE@,
        _ => initial_template(t),
    }
}

/// The name a kind is listed under.
pub open spec fn type_label(t: ResourceType) -> Seq<char> {
    match t {
        ResourceType::NameSpace => "NameSpace"@,
        ResourceType::Secret => "Secret"@,
        ResourceType::Deployment => "Deployment"@,
        ResourceType::Role => "Role"@,
        ResourceType::RoleBinding => "RoleBinding"@,
        ResourceType::Service => "Service"@,
        ResourceType::Ingress => "Ingress"@,
        ResourceType::DaemonSet => "DaemonSet"@,
        ResourceType::ReplicaSet => "ReplicaSet"@,
        ResourceType::ConfigMap => "Configmap"@,
        ResourceType::ClusterRole => "Cluster role"@,
        ResourceType::ClusterRoleBinding => "Cluster role binding"@,
        ResourceType::ExternalSecret => "External secret"@,
        ResourceType::Pod => "Pod"@,
        ResourceType::PodWithPvc => "Pod with PVC"@,
        ResourceType::ServiceAccount => "Service account"@,
        ResourceType::PersistenceVolumeClaim => "PersistenceVolumeClaim"@,
        ResourceType::Blank => "Blank"@,
    }
}

fn initial_template_text(t: ResourceType) -> (r: &'static str)
    ensures
        r@ == initial_template(t),
{
    match t {
        ResourceType::NameSpace => NAMESPACE_TEMPLATE,
        ResourceType::Pod => POD_TEMPLATE,
        ResourceType::Deployment => DEPLOYMENT_TEMPLATE,
        ResourceType::Service => SERVICE_TEMPLATE,
        ResourceType::DaemonSet => DAEMONSET_TEMPLATE,
        ResourceType::Ingress => INGRESS_TEMPLATE,
        ResourceType::ReplicaSet => REPLICASET_TEMPLATE,
        ResourceType::PodWithPvc => POD_WITH_PVC_TEMPLATE,
        ResourceType::ConfigMap => CONFIGMAP_TEMPLATE,
        ResourceType::Secret => SECRET_TEMPLATE,
        ResourceType::ExternalSecret => EXTERNAL_SECRET_TEMPLATE,
        ResourceType::Role => ROLE_TEMPLATE,
        ResourceType::RoleBinding => CLUSTER_ROLE_BINDING_TEMPLATE,
        ResourceType::ClusterRole => CLUSTER_ROLE_TEMPLATE,
        ResourceType::ClusterRoleBinding => CLUSTER_ROLE_BINDING_TEMPLATE,
        ResourceType::ServiceAccount => SERVICE_ACCOUNT_TEMPLATE,
        ResourceType::PersistenceVolumeClaim => PVC_TEMPLATE,
        ResourceType::Blank => "",
    }
}

/// The name a kind is listed under.
pub fn resource_type_label(t: ResourceType) -> (r: &'static str)
    ensures
        r@ == type_label(t),
{
    match t {
        ResourceType::NameSpace => "NameSpace",
        ResourceType::Secret => "Secret",
        ResourceType::Deployment => "Deployment",
        ResourceType::Role => "Role",
        ResourceType::RoleBinding => "RoleBinding",
        ResourceType::Service => "Service",
        ResourceType::Ingress => "Ingress",
        ResourceType::DaemonSet => "DaemonSet",
        ResourceType::ReplicaSet => "ReplicaSet",
        ResourceType::ConfigMap => "Configmap",
        ResourceType::ClusterRole => "Cluster role",
        ResourceType::ClusterRoleBinding => "Cluster role binding",
        ResourceType::ExternalSecret => "External secret",
        ResourceType::Pod => "Pod",
        ResourceType::PodWithPvc => "Pod with PVC",
        ResourceType::ServiceAccount => "Service account",
        ResourceType::PersistenceVolumeClaim => "PersistenceVolumeClaim",
        ResourceType::Blank => "Blank",
    }
}

/// The kinds in the order the list offers them.
pub fn resource_type_choices() -> (r: [ResourceType; 18])
    ensures
        r@ == seq![
            ResourceType::NameSpace,
            ResourceType::Secret,
            ResourceType::Deployment,
            ResourceType::Service,
            ResourceType::DaemonSet,
            ResourceType::Ingress,
            ResourceType::ReplicaSet,
            ResourceType::Pod,
            ResourceType::PodWithPvc,
            ResourceType::ConfigMap,
            ResourceType::ServiceAccount,
            ResourceType::Role,
            ResourceType::RoleBinding,
            ResourceType::ClusterRole,
            ResourceType::ClusterRoleBinding,
            ResourceType::ExternalSecret,
            ResourceType::PersistenceVolumeClaim,
            ResourceType::Blank,
        ],
{
    [
        ResourceType::NameSpace,
        ResourceType::Secret,
        ResourceType::Deployment,
        ResourceType::Service,
        ResourceType::DaemonSet,
        ResourceType::Ingress,
        ResourceType::ReplicaSet,
        ResourceType::Pod,
        ResourceType::PodWithPvc,
        ResourceType::ConfigMap,
        ResourceType::ServiceAccount,
        ResourceType::Role,
        ResourceType::RoleBinding,
        ResourceType::ClusterRole,
        ResourceType::ClusterRoleBinding,
        ResourceType::ExternalSecret,
        ResourceType::PersistenceVolumeClaim,
        ResourceType::Blank,
    ]
}

/// The resource creation window.
pub struct NewResourceWindow {
    pub resource_type: ResourceType,
    pub content: String,
    pub show: bool,
}

impl NewResourceWindow {
    /// A closed window with a blank kind and an empty editor.
    pub fn new() -> (r: Self)
        ensures
            r.resource_type == ResourceType::Blank,
            r.content@.len() == 0,
            !r.show,
    {
        NewResourceWindow { resource_type: ResourceType::Blank, content: String::new(), show: false }
    }

    /// An empty editor receives the template of the current kind.
    pub fn fill_if_empty(&mut self)
        ensures
            final(self).resource_type == old(self).resource_type,
            final(self).show == old(self).show,
            final(self).content@ == (if old(self).content@.len() == 0 {
                initial_template(old(self).resource_type)
            } else {
                old(self).content@
            }),
    {
        if self.content.as_str().is_empty() {
            self.content = string_of(&chars_of(initial_template_text(self.resource_type)));
        }
    }

    /// A kind was picked from the list: its template replaces the editor.
    pub fn pick(&mut self, t: ResourceType)
        ensures
            final(self).resource_type == t,
            final(self).show == old(self).show,
            final(self).content@ == picked_template(t),
    {
        self.resource_type = t;
        let text = match t {
            ResourceType::RoleBinding => ROLE_BINDING_TEMPLATE,
            ResourceType::ClusterRoleBinding => CLUSTER_ROLE_TEMPLATE,
            _ => initial_template_text(t),
        };
        self.content = string_of(&chars_of(text));
    }

    /// "Apply": the window closes and hands out the YAML to create and its
    /// kind.
    pub fn apply(&mut self) -> (r: (String, ResourceType))
        ensures
            !final(self).show,
            r.0@ == old(self).content@,
            r.1 == old(self).resource_type,
            final(self).content@ == old(self).content@,
            final(self).resource_type == old(self).resource_type,
    {
        self.show = false;
        (self.content.clone(), self.resource_type)
    }

    /// "Cancel": the window closes.
    pub fn cancel(&mut self)
        ensures
            !final(self).show,
            final(self).content@ == old(self).content@,
            final(self).resource_type == old(self).resource_type,
    {
        self.show = false;
    }
}

} // verus!
