# orchestrator

Sequential multi-agent orchestration. A request names an orchestration and gives a task.
Its agents run one after the other; each is handed the output of the one before it. Every
tool call that an agent makes is recorded and comes back in the result, as JSON under the
key `__orchestrated_tool_calls`.

`src/` is the library. It decides: which requests are refused and with what words, whose
turn it is, what an agent is asked, which tools and skills it gets, how long it may take,
what its answer counts for, and what the final result holds. Its functions carry contracts
that Verus proves, and `laws.rs` and `runs.rs` state what holds of the library as a whole.

| module | what it holds |
| --- | --- |
| `pipeline` | a request, and a run of an orchestration, step by step |
| `agent` | one agent's turn, step by step |
| `prompt` | the system prompt of an agent with tools |
| `selection` | the tools and skills that an agent gets |
| `tracking` | the record of tool calls, and the report |
| `orchestrator` | the tool's settings, and how it presents itself |
| `config`, `table` | settings, and tables of them by name |
| `json`, `text` | JSON values, and text |
| `laws`, `runs` | laws |

`app/` is the program around it: it waits for providers, models and tools, holds the locks
and writes the log. `tests/` drives the library as such a program does.
