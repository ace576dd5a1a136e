//! The texts that introduce each tool to the model.

use vstd::prelude::*;

verus! {

/// What the model is told about `ls`.
pub const LS_DESCRIPTION: &'static str = "## Tool Name: `fs_ls`

### Description
Lists the contents of a specified directory, providing either a basic overview or detailed metadata for each entry found.

### Use Cases
The agent should use this tool when:
-   **Navigation:** Exploring the file system hierarchy to find specific files or subdirectories.
-   **Verification:** Confirming the existence of a file or verifying that a file operation (like creation or deletion) was successful.
-   **Permission Checks:** Investigating Unix permissions or file sizes to troubleshoot access issues or storage constraints.
-   **Symlink Resolution:** Identifying if an entry is a symbolic link and determining its target destination.

### Parameters
-   `path` (string, **required**): The directory path to list. Supports absolute paths, relative paths, and tilde expansion (e.g., `~/Documents`).
-   `detailed` (boolean, **required**):
    -   Set to `false` for a lightweight list (name, type, symlink status).
    -   Set to `true` to include absolute paths, Unix mode permissions, and file size in bytes.

### Behavior
-   **Unix Integration:** This tool uses Unix-specific extensions. Permissions are returned as a numeric mode (bitmask). **Warning: This tool is not cross-platform compatible and is designed for Unix or Unix-like environments; it may fail or behave unexpectedly on non-Unix systems.**
-   **Symlinks:** If a file is a symbolic link, the tool explicitly identifies it and attempts to read the link destination.
-   **Path Resolution:** When listing a relative path, the tool attempts to canonicalize the absolute path for each entry when in `detailed` mode.

### Usage Precautions
-   **UTF-8 Requirement:** The tool will return an error if it encounters path names that are not valid UTF-8.
-   **Empty Directories:** An empty directory will return an empty list `[]` with a `Success` status.
-   **Performance:** Avoid requesting `detailed: true` on directories containing thousands of files unless the metadata is strictly necessary, as canonicalizing every path and fetching metadata incurs additional I/O overhead.
-   **Hidden Files:** The tool lists all entries returned by the filesystem. Unlike a standard shell `ls`, it does not require a special flag to show \"hidden\" files (those starting with a dot), as it iterates through all directory entries provided by the OS.
";

/// What the model is told about `pwd`.
pub const PWD_DESCRIPTION: &'static str = "## Tool Name: `fs_pwd`
### Description
Returns the absolute path of the current working directory for the environment in which the agent is operating.

### Use Cases
The agent should use this tool when:
-   **Context Discovery:** It needs to establish where it is within the file system before performing file operations.
-   **Path Resolution:** It needs to resolve relative paths into absolute paths.
-   **Verification:** It needs to confirm that a previous directory change (e.g., via a `cd` command) was successful and that it is in the expected location.

### Behavior
-   **Input:** None (requires an empty parameters object `{}`).
-   **Output:** A string representing the current absolute path (e.g., `/home/user/project` or `/Users/name/work`).

### Usage Precautions
-   **Statelessness:** If the agent is running in a distributed or serverless environment, the current working directory might reset between different tool calls or conversation turns. Do not assume the directory remains persistent without verifying the environment's architecture.
-   **Symbolic Links:** The tool returns the actual current directory. Be aware that if the agent entered a directory via a symbolic link, `fs_pwd` may return the physical path rather than the logical path, depending on how the underlying Rust `std::env::current_dir()` handles the specific filesystem mount.
-   **Permissions:** While unlikely for the `pwd` action itself, the agent may have permission to be in a directory but lack permission to read its parent, which can occasionally cause issues in path canonicalization.";

/// What the model is told about `read`.
pub const READ_DESCRIPTION: &'static str = "## Tool Name: `fs_read`

### Description
Reads the entire content of a specified file and returns it as a UTF-8 encoded string.

### Use Cases
The agent should use this tool when:
-   **Code Review/Analysis:** It needs to examine the source code of a file to provide explanations or refactoring suggestions.
-   **Configuration Reading:** It needs to extract settings or environment variables from configuration files (e.g., `.env`, `Cargo.toml`, `settings.json`).
-   **Data Extraction:** It needs to retrieve information from text-based logs, documentation, or data files.
-   **Modification Prep:** It needs to see the current state of a file before applying edits or overwriting content.

### Parameters
-   `path` (string, **required**): The path to the file to be read. Supports absolute paths, relative paths, and tilde expansion (e.g., `~/.bashrc`).

### Behavior
-   **Encoding:** The tool strictly expects and returns **UTF-8** encoded text.
-   **Path Resolution:** Automatically expands `~` to the user's home directory.
-   **Asynchronous I/O:** Utilizes non-blocking I/O (via `tokio::fs`) to ensure the agent environment remains responsive during the read operation.

### Usage Precautions
-   **Token Management:** Reading very large files can consume a significant portion of the agent's context window (token limit). For large files, consider using alternative methods to \"peak\" at the file or process it in chunks if available.
-   **Binary Files:** **Warning: This tool is not suitable for reading binary files** (e.g., images, compiled executables, or compressed archives). Attempting to read non-UTF-8 data will result in an error or corrupted text.
-   **Memory Usage:** Because the tool reads the *entire* file into memory as a string, attempting to read multi-gigabyte files may lead to memory exhaustion or tool failure.
-   **Environment:** While cross-platform at the Rust level, the tool follows **Unix-like path conventions**. On systems like macOS or Debian, ensure the calling agent has the necessary read permissions for the target file.
-   **Security:** **Do not use this tool to read confidential files, private keys, or secrets (e.g., `.ssh/id_rsa`, `shadow`, or sensitive credential stores) unless explicitly authorized for a specific troubleshooting task.**";

/// What the model is told about `write`.
pub const WRITE_DESCRIPTION: &'static str = "## Tool Name: `fs_write`

### Description
Writes text data to a specified file, with support for creating new files, overwriting existing ones, or appending to them.

### Use Cases
The agent should use this tool when:
-   **File Creation:** Generating new source files, configuration files, or documentation.
-   **Logging:** Appending status updates or audit trail entries to an existing log file.
-   **Code Modification:** Overwriting a file with updated logic or refactored code.
-   **Persistent Storage:** Saving session data or results for later use by the user or the agent.

### Parameters
-   `path` (string, **required**): The destination file path. Supports absolute paths, relative paths, and tilde expansion (e.g., `~/scripts/test.sh`).
-   `mode` (string, **required**):
    -   `\"write\"`: Erases all existing content in the file and writes the new `contents`.
    -   `\"append\"`: Preserves existing data and adds the new `contents` to the end of the file.
-   `create` (boolean, **required**):
    -   Set to `true` to create the file if it does not already exist.
    -   Set to `false` to ensure writing only occurs if the file is already present (fails if missing).
-   `contents` (string, **required**): The string data to write to the file.

### Behavior
-   **Tilde Expansion:** Automatically resolves `~` to the user's home directory.
-   **Asynchronous Processing:** Uses `tokio::fs` to perform non-blocking file I/O, flushing buffers immediately after writing to ensure data integrity.
-   **Output:** Returns the total number of bytes successfully written to the disk.

### Usage Precautions
-   **Destructive Mode:** Use `mode: \"write\"` with extreme caution, as it will **permanently erase** existing file content. Verify the target path using `fs_ls` or `fs_pwd` before overwriting.
-   **Directory Existence:** The tool will fail if you attempt to create a file in a directory that does not exist. Ensure the parent directory structure is in place before calling `fs_write`.
-   **Concurrent Access:** Be mindful that other processes or VMs (e.g., your Debian/Ubuntu instances on Proxmox) might be accessing the same files. This tool does not implement mandatory file locking.
-   **Unix Permissions:** The tool operates under the permissions of the agent's process. It will fail with an error if it lacks write access to the target directory or file.
-   **Non-Text Data:** This tool is designed for UTF-8 strings. It is **not suitable for binary data** or complex non-text formats.";

/// What the model is told about `current_time`.
pub const CURRENT_TIME_DESCRIPTION: &'static str = "## Tool Name: `env_current_time`
### Description
Returns the current local and UTC timestamps of the environment where the agent is operating.

### Use Cases
The agent should use this tool when:
-   **Temporal Awareness:** It needs to understand the current date or time to make scheduling, logging, or context-dependent decisions.
-   **Time Calculations:** It needs to compute durations, deadlines, or historical differences relative to the present moment.
-   **Data Synchronization:** It needs to timestamp file creation, API requests, or database records accurately.

### Behavior
-   **Input:** None (requires an empty parameters object `{}`).
-   **Output:** A JSON object containing the current ISO 8601 / RFC 3339 formatted strings for both `local_time` and `utc_time`.

### Usage Precautions
-   **Time Zone Discrepancies:** The `local_time` field reflects the system clock configuration of the environment where the tool executes, which might differ from the user's local timezone. Always inspect the offset provided in the timestamp string.
-   **Drift and Synchronization:** In serverless or distributed setups, minor clock drift might occur between different execution environments. Relying on sub-second precision for sequence synchronization across systems is discouraged.";

} // verus!
