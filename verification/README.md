# devenv-controller

A Kubernetes controller that turns `DevEnvironment` custom resources
(`devenv.example.com/v1alpha1`) into a managed namespace and a deployment.

- `src/` is the verified library: the labels map, the rules on blocked and
  managed namespaces, the deployment built from a configuration, and the step
  functions that decide, from the cluster's last answer, what to ask next.
- `app/` is the program around it: the kube-rs controller loop, the calls to
  the Kubernetes API that the steps ask for, the serde/kube derives of the
  custom resource, and `crdgen` (run the program with the argument `crdgen`
  to print the CRD).
- `tests/` runs the library on concrete cluster answers.
