# gtogl

The verified core of a command-line tool that migrates Git repositories to
GitLab (`migrate`), rewrites the Terraform and Terragrunt module sources that
point at migrated repositories (`replace`), deletes the created GitLab
projects (`delete from-report`), generates a migration config from AWS
CodeCommit (`generate config codecommit`) and prints the JSON schemas of its
documents (`schema`).

- `src/` is the library, verified with Verus: the document model, the paths,
  URLs, requests and git commands each command uses, the rewriting of module
  sources, and the laws they obey.
- `app/` is the program around it: argument parsing, files, environment,
  HTTP, git processes, AWS calls, concurrency and logging.
- `tests/` runs the library on concrete values.
