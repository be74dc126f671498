# r3x_cloud

A cloud-waste detector for Google Cloud projects: it lists the resources of a project
(VMs, disks, snapshots, addresses, buckets, databases, clusters, serverless services,
...), estimates what each costs a month, and runs a catalog of detection rules that
point out what is stopped, detached, idle or unlabelled, with the money it would save.

The library under `src/` is written in Verus and carries its specification:

- `json`, `text`, `numfmt`, `clock`: the JSON model that API responses are read into,
  string and number handling, and time arithmetic.
- `provider`: resources, resource types and providers, with their names.
- `gcp/`: reading each GCP API's objects into resources (`compute`, `network`,
  `serverless`, `data`, `services`), the price list behind the estimates (`pricing`),
  the listing calls and their outcomes (`scan`) and the gcloud CLI's output (`auth`).
- `rules`, `detector`: the rule catalog and the analysis of a scan.
- `account`, `credentials`, `engine`, `export`, `cost`: accounts, sign-in status, a scan
  run, CSV export rows and the embedded price list.

Money is held in billionths of a US dollar (`u64`), so every estimate is exact integer
arithmetic.

`app/` holds what is not verified: the HTTP and gcloud calls, the SQLite store, the
export files and the serializable copies of the library's types.
